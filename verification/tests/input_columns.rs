use tas_editor::input::{
    TasCameraInput, TasColecoControllerInput, TasColecoKeypadKey, TasControllerInput, TasDigest, TasInputFrame,
};
use tas_editor::input_columns::{digital_columns, DigitalColumn, DigitalField};
use tas_editor::summaries::{
    branch_diff_input_summary, event_kind_label, raw_input_summary, TasEventDiffKind,
    TasInspectorTab,
};

#[test]
fn master_system_rows_show_the_two_standard_pad_buttons() {
    assert_eq!(
        digital_columns("sms"),
        vec![
            DigitalColumn { label: "R", field: DigitalField::Dpad, mask: 1 },
            DigitalColumn { label: "L", field: DigitalField::Dpad, mask: 2 },
            DigitalColumn { label: "U", field: DigitalField::Dpad, mask: 4 },
            DigitalColumn { label: "D", field: DigitalField::Dpad, mask: 8 },
            DigitalColumn { label: "1", field: DigitalField::Buttons, mask: 1 },
            DigitalColumn { label: "2", field: DigitalField::Buttons, mask: 2 },
        ]
    );
}

#[test]
fn sg1000_rows_show_the_two_standard_pad_buttons() {
    assert_eq!(digital_columns("sg"), digital_columns("sms"));
}

#[test]
fn game_gear_rows_show_the_built_in_pad_and_start() {
    let columns = digital_columns("game_gear");
    assert_eq!(columns.len(), 7);
    assert_eq!(columns[4].label, "1");
    assert_eq!(columns[5].label, "2");
    assert_eq!(columns[6].label, "St");
    assert_eq!(columns[6].mask, 0x08);
}

#[test]
fn wonderswan_rows_show_the_x_y_and_action_controls() {
    assert_eq!(
        digital_columns("ws"),
        vec![
            DigitalColumn { label: "X1", field: DigitalField::Dpad, mask: 1 },
            DigitalColumn { label: "X2", field: DigitalField::Dpad, mask: 2 },
            DigitalColumn { label: "X3", field: DigitalField::Dpad, mask: 4 },
            DigitalColumn { label: "X4", field: DigitalField::Dpad, mask: 8 },
            DigitalColumn { label: "A", field: DigitalField::Buttons, mask: 1 },
            DigitalColumn { label: "B", field: DigitalField::Buttons, mask: 2 },
            DigitalColumn { label: "St", field: DigitalField::Buttons, mask: 8 },
            DigitalColumn { label: "Y1", field: DigitalField::Buttons, mask: 16 },
            DigitalColumn { label: "Y2", field: DigitalField::Buttons, mask: 32 },
            DigitalColumn { label: "Y3", field: DigitalField::Buttons, mask: 64 },
            DigitalColumn { label: "Y4", field: DigitalField::Buttons, mask: 128 },
        ]
    );
}

#[test]
fn input_summaries_distinguish_both_coleco_controllers_fire_and_keypad() {
    let input = TasInputFrame {
        coleco: [
            TasColecoControllerInput {
                up: true,
                left_button: true,
                keypad: TasColecoKeypadKey::Star,
                ..TasColecoControllerInput::default()
            },
            TasColecoControllerInput {
                right: true,
                right_button: true,
                keypad: TasColecoKeypadKey::Pound,
                ..TasColecoControllerInput::default()
            },
        ],
        ..TasInputFrame::default()
    };
    let expected =
        "coleco=p1=u1/r0/d0/l0/fire-l1/fire-r0/key=* p2=u0/r1/d0/l0/fire-l0/fire-r1/key=#";

    assert_eq!(branch_diff_input_summary(&input)[1], expected);
    assert!(raw_input_summary(&input).contains(expected));
}

#[test]
fn input_summary_lists_every_player_in_hex() {
    let mut input = TasInputFrame::default();
    input.players[0] = TasControllerInput { buttons: 0x81, dpad: 0x0a };
    let lines = branch_diff_input_summary(&input);
    assert_eq!(lines.len(), 5);
    assert_eq!(lines[0], "p1=b81/d0A p2=b00/d00 p3=b00/d00 p4=b00/d00 p5=b00/d00");
    assert_eq!(lines[2], "zapper=e0/t0/h0/pos=none");
    assert_eq!(lines[3], "tilt=0x00000000/0x00000000");
}

#[test]
fn inspector_tabs_match_the_wide_and_compact_navigation_order() {
    assert_eq!(
        [
            TasInspectorTab::Branches.label(),
            TasInspectorTab::Markers.label(),
            TasInspectorTab::Tools.label(),
        ],
        ["Branches", "Markers", "Tools"]
    );
    assert_eq!(
        TasInspectorTab::all(),
        vec![TasInspectorTab::Branches, TasInspectorTab::Markers, TasInspectorTab::Tools]
    );
}

#[test]
fn branches_are_the_default_inspector_tab() {
    assert_eq!(TasInspectorTab::default(), TasInspectorTab::Branches);
}

#[test]
fn event_kinds_have_distinct_labels() {
    assert_eq!(event_kind_label(TasEventDiffKind::Changed), "changed canonical event group");
    assert_eq!(
        event_kind_label(TasEventDiffKind::SourceOnly),
        "source-only canonical event group"
    );
    assert_eq!(
        event_kind_label(TasEventDiffKind::TargetOnly),
        "target-only canonical event group"
    );
}

#[test]
fn camera_summary_shows_the_leading_digest_digits() {
    let input = TasInputFrame { camera: TasCameraInput::Blob(TasDigest(0x1000_0000_0000_0000)), ..TasInputFrame::default() };
    assert!(raw_input_summary(&input).ends_with("camera=blob:100000000000"));
    let input = TasInputFrame { camera: TasCameraInput::Blob(TasDigest(0x0123_4567_89AB_CDEF)), ..TasInputFrame::default() };
    assert!(raw_input_summary(&input).ends_with("camera=blob:0123456789AB"));
    assert!(raw_input_summary(&TasInputFrame::default()).ends_with("camera=none"));
}

#[test]
fn branch_diff_camera_line_puts_the_digest_on_its_own_line() {
    let input = TasInputFrame { camera: TasCameraInput::Blob(TasDigest(0x0123_4567_89AB_CDEF)), ..TasInputFrame::default() };
    assert_eq!(branch_diff_input_summary(&input)[4], "camera=blob:\n0123456789ABCDEF");
    assert_eq!(branch_diff_input_summary(&TasInputFrame::default())[4], "camera=none");
}
