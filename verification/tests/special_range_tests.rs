use tas_editor::editor::{TasEditorAction, TasEditorWindowState};
use tas_editor::editor_clipboard::TasInputClipboardAction;
use tas_editor::editor_edits::{TasSpecialRangeAction, TasSpecialRangeTarget};
use tas_editor::identity::{TasDeviceIdentity, TasProjectIdentity};
use tas_editor::input::{
    TasCameraInput, TasDigest, TasInputFrame, TasScreenPos, TasSpecialInputMask,
    TasSpecialTransform, TasZapperInput,
};
use tas_editor::live::{TasEditorHostRequest, TasEditorLiveAction, TasEditorLiveStatus};
use tas_editor::marked_ranges::TasMarkedRangesAction;
use tas_editor::project::{TasAsset, TasProject};
use tas_editor::special_input::{special_input_capabilities, POCKET_CAMERA_FRAME_BYTES};

const NES_ZAPPER_DEVICE: &str = "nes-zapper";
const GAME_BOY_MBC7_DEVICE: &str = "game-boy-mbc7";
const GAME_BOY_POCKET_CAMERA_DEVICE: &str = "game-boy-pocket-camera";
const GBA_TILT_DEVICE: &str = "gba-tilt-sensor";

fn identity(system: &str, devices: &[&str]) -> TasProjectIdentity {
    TasProjectIdentity {
        system: system.to_owned(),
        devices: devices
            .iter()
            .enumerate()
            .map(|(index, device)| TasDeviceIdentity::new(&format!("special-{index}"), device))
            .collect(),
        firmware: Vec::new(),
        effective_media_digest: TasDigest(2),
    }
}

fn open(project: TasProject) -> TasEditorWindowState {
    let mut state = TasEditorWindowState::new();
    state.open_project(project, "movie.ztas").unwrap();
    state
}

fn fixture(system: &str, devices: &[&str], camera: bool) -> TasEditorWindowState {
    let mut project = TasProject::new("special-ranges", identity(system, devices), "main", "Main", 12);
    let camera_assets = if camera {
        vec![TasDigest(0x23), TasDigest(0x91)]
    } else {
        Vec::new()
    };
    for digest in &camera_assets {
        project
            .assets
            .push(TasAsset { digest: *digest, bytes: vec![digest.0 as u8; POCKET_CAMERA_FRAME_BYTES] });
    }
    let capabilities = special_input_capabilities(&project.identity);
    for frame in 0..12u64 {
        let mut input = TasInputFrame::default();
        input.players[0].buttons = frame as u8;
        input.players[1].dpad = frame as u8 % 16;
        if capabilities.nes_zapper {
            input.zapper = TasZapperInput {
                enabled: true,
                trigger: frame % 2 == 0,
                hit: frame % 3 == 0,
                screen_pos: Some(TasScreenPos { x: frame as u16 * 10, y: frame as u16 * 7 }),
            };
        }
        if capabilities.mbc7_tilt || capabilities.gba_tilt {
            input.tilt_x_bits = if frame == 2 { 0x8000_0000 } else { (frame as f32 / 12.0).to_bits() };
            input.tilt_y_bits = if frame == 3 { 0x7FC0_0123 } else { (-0.5 + frame as f32 / 24.0).to_bits() };
        }
        if capabilities.pocket_camera && frame % 3 != 0 {
            input.camera = TasCameraInput::Blob(camera_assets[frame as usize % camera_assets.len()]);
        }
        project.branches[0].frames[frame as usize] = input;
    }
    open(project)
}

fn select(state: &mut TasEditorWindowState, start: u64, end: u64) {
    state.timeline_selection.select_range(start, end);
}

fn mark(state: &mut TasEditorWindowState, start: u64, end: u64) {
    select(state, start, end);
    let session = state.session.as_ref().unwrap();
    let selection = state.timeline_selection.snapshot(session).unwrap();
    let snapshot = state.marked_ranges.snapshot(session).unwrap();
    state
        .reduce(TasEditorAction::MarkedRanges(TasMarkedRangesAction::Add { snapshot, selection }))
        .unwrap();
}

fn wrap(action: TasSpecialRangeAction) -> TasEditorAction {
    TasEditorAction::InputClipboard(TasInputClipboardAction::ApplySpecialRangeTransform(action))
}

fn edit_action(
    state: &mut TasEditorWindowState,
    marked: bool,
    mask: TasSpecialInputMask,
    transform: TasSpecialTransform,
) -> TasSpecialRangeAction {
    let session = state.session.as_ref().unwrap();
    let target = if marked {
        TasSpecialRangeTarget::Marked(state.marked_ranges.snapshot(session).unwrap())
    } else {
        TasSpecialRangeTarget::Selection(state.timeline_selection.snapshot(session).unwrap())
    };
    let session = state.session.as_ref().unwrap();
    TasSpecialRangeAction {
        expected_project_digest: session.project_content_digest(),
        target_branch_id: session.selected_branch_id().to_owned(),
        target_movie_digest: session.project().branch_movie_digest(session.selected_branch_id()).unwrap(),
        target,
        mask,
        transform,
    }
}

fn project_of(state: &TasEditorWindowState) -> TasProject {
    state.session.as_ref().unwrap().project().clone_project()
}

#[test]
fn special_ranges_clear_and_reverse_only_checked_channels_in_one_undoable_edit() {
    for (system, devices, mask) in [
        ("nes", vec![NES_ZAPPER_DEVICE], TasSpecialInputMask { zapper: true, ..Default::default() }),
        (
            "gb",
            vec![GAME_BOY_MBC7_DEVICE, GAME_BOY_POCKET_CAMERA_DEVICE],
            TasSpecialInputMask { tilt_x: true, ..Default::default() },
        ),
        (
            "gb",
            vec![GAME_BOY_MBC7_DEVICE, GAME_BOY_POCKET_CAMERA_DEVICE],
            TasSpecialInputMask { tilt_y: true, camera: true, ..Default::default() },
        ),
        ("gba", vec![GBA_TILT_DEVICE], TasSpecialInputMask { tilt_x: true, tilt_y: true, ..Default::default() }),
    ] {
        for transform in [TasSpecialTransform::Clear, TasSpecialTransform::Reverse] {
            for marked in [false, true] {
                let mut state = fixture(system, &devices, devices.contains(&GAME_BOY_POCKET_CAMERA_DEVICE));
                let ranges = if marked { vec![(1_u64, 4_u64), (7, 10)] } else { vec![(1, 10)] };
                for &(start, end) in &ranges {
                    mark(&mut state, start, end);
                }
                let before = project_of(&state);
                let session = state.session.as_ref().unwrap();
                let history = session.undo_count();
                let original = (0..12).map(|frame| session.selected_branch().input_at(frame)).collect::<Vec<_>>();
                let selection = state.timeline_selection.snapshot(session);
                let assets = session.project().assets.clone();
                let action = edit_action(&mut state, marked, mask, transform);
                state.reduce(wrap(action)).unwrap();
                let after = project_of(&state);
                let session = state.session.as_ref().unwrap();
                assert_eq!(session.undo_count(), history + 1);
                assert_eq!(state.timeline_selection.snapshot(session), selection);
                assert_eq!(session.project().assets, assets);
                for frame in 0..12 {
                    let mut expected = original[frame as usize];
                    if let Some(&(start, end)) = ranges.iter().find(|&&(start, end)| frame >= start && frame < end) {
                        let source = match transform {
                            TasSpecialTransform::Clear => TasInputFrame::default(),
                            TasSpecialTransform::Reverse => original[(start + end - 1 - frame) as usize],
                        };
                        if mask.zapper {
                            expected.zapper = source.zapper;
                        }
                        if mask.tilt_x {
                            expected.tilt_x_bits = source.tilt_x_bits;
                        }
                        if mask.tilt_y {
                            expected.tilt_y_bits = source.tilt_y_bits;
                        }
                        if mask.camera {
                            expected.camera = source.camera;
                        }
                    }
                    assert_eq!(
                        session.selected_branch().input_at(frame),
                        expected,
                        "{system} {transform:?} marked={marked} frame={frame}"
                    );
                }
                let marks = state.marked_ranges.snapshot(session).unwrap();
                assert_eq!(marks.ranges, if marked { ranges } else { Vec::new() });
                state.reduce(TasEditorAction::Undo).unwrap();
                assert_eq!(project_of(&state), before);
                state.reduce(TasEditorAction::Redo).unwrap();
                assert_eq!(project_of(&state), after);
            }
        }
    }
}

#[test]
fn special_ranges_reject_stale_selection_marks_movie_and_branch_without_mutation() {
    let mut state = fixture("gba", &[GBA_TILT_DEVICE], false);
    let mask = TasSpecialInputMask { tilt_x: true, ..Default::default() };
    select(&mut state, 1, 4);
    let stale_selection = edit_action(&mut state, false, mask, TasSpecialTransform::Clear);
    select(&mut state, 2, 5);
    assert!(state.reduce(wrap(stale_selection)).is_err());
    mark(&mut state, 1, 4);
    let stale_marks = edit_action(&mut state, true, mask, TasSpecialTransform::Clear);
    mark(&mut state, 7, 10);
    let before = project_of(&state);
    assert!(state.reduce(wrap(stale_marks)).is_err());
    for corrupt in 0..3 {
        let mut action = edit_action(&mut state, true, mask, TasSpecialTransform::Clear);
        match corrupt {
            0 => action.target_movie_digest = TasDigest(0xE1E1),
            1 => action.target_branch_id = "other".to_owned(),
            _ => {
                if let TasSpecialRangeTarget::Marked(snapshot) = &mut action.target {
                    snapshot.ranges = vec![(0, 12)];
                }
            }
        }
        assert!(state.reduce(wrap(action)).is_err());
    }
    assert_eq!(project_of(&state), before);
}

#[test]
fn special_ranges_no_op_and_empty_or_undeclared_masks_do_not_add_history() {
    let identity = identity("gba", &[GBA_TILT_DEVICE]);
    let mut state = open(TasProject::new("special-input-project", identity, "main", "Main", 3));
    mark(&mut state, 0, 3);
    let before = project_of(&state);
    let history = state.session.as_ref().unwrap().undo_count();
    let marks = state.marked_ranges.snapshot(state.session.as_ref().unwrap()).unwrap();
    for transform in [TasSpecialTransform::Clear, TasSpecialTransform::Reverse] {
        let action = edit_action(&mut state, true, TasSpecialInputMask { tilt_x: true, ..Default::default() }, transform);
        assert_eq!(
            state.reduce(wrap(action)).unwrap(),
            Some("Recorded-input edit made no change".to_owned())
        );
        for mask in [
            TasSpecialInputMask::default(),
            TasSpecialInputMask { camera: true, ..Default::default() },
            TasSpecialInputMask { zapper: true, ..Default::default() },
        ] {
            let action = edit_action(&mut state, true, mask, transform);
            assert!(state.reduce(wrap(action)).is_err());
        }
    }
    assert_eq!(project_of(&state), before);
    assert_eq!(state.session.as_ref().unwrap().undo_count(), history);
    assert_eq!(state.marked_ranges.snapshot(state.session.as_ref().unwrap()).unwrap(), marks);
}

#[test]
fn special_ranges_camera_authoring_failure_in_a_later_interval_is_atomic() {
    let mut state = fixture("gb", &[GAME_BOY_MBC7_DEVICE, GAME_BOY_POCKET_CAMERA_DEVICE], true);
    let mut project = project_of(&state);
    project.assets.push(TasAsset { digest: TasDigest(0xDD), bytes: vec![0xDD; 12] });
    project.branches[0].frames[8] = TasInputFrame {
        camera: TasCameraInput::Blob(TasDigest(0xDD)),
        ..Default::default()
    };
    state.open_project(project, "movie.ztas").unwrap();
    mark(&mut state, 1, 4);
    mark(&mut state, 7, 10);
    let before = project_of(&state);
    let history = state.session.as_ref().unwrap().undo_count();
    let action = edit_action(
        &mut state,
        true,
        TasSpecialInputMask { camera: true, ..Default::default() },
        TasSpecialTransform::Reverse,
    );
    assert!(state.reduce(wrap(action)).is_err());
    assert_eq!(project_of(&state), before);
    assert_eq!(state.session.as_ref().unwrap().undo_count(), history);
}

#[test]
fn special_ranges_follow_clipboard_recording_discard_and_live_authority_rules() {
    for recording in [false, true] {
        let mut state = fixture("gba", &[GBA_TILT_DEVICE], false);
        select(&mut state, 1, 4);
        let action = edit_action(&mut state, false, TasSpecialInputMask { tilt_x: true, ..Default::default() }, TasSpecialTransform::Clear);
        let before = project_of(&state);
        if recording {
            state.reduce(TasEditorAction::StartRecordingAtEnd).unwrap();
            state.reduce(wrap(action)).unwrap();
            assert!(state.recording.is_none());
            assert_eq!(state.session.as_ref().unwrap().selected_branch().frame_count(), 12);
            state.reduce(TasEditorAction::Undo).unwrap();
        } else {
            state.set_live_status(TasEditorLiveStatus::Staging { completed: 0, total: 1 });
            let error = state.reduce(wrap(action)).unwrap_err();
            assert!(error.message().contains("live game decision"));
        }
        assert_eq!(project_of(&state), before);
    }
}

#[test]
fn special_ranges_linked_edit_clears_preview_and_reconstructs_changed_ranges_once() {
    let mut project = TasProject::new("special-ranges", identity("gba", &[GBA_TILT_DEVICE]), "main", "Main", 12);
    for frame in 7..10usize {
        project.branches[0].frames[frame].tilt_x_bits = 0.5_f32.to_bits();
    }
    let mut state = open(project);
    mark(&mut state, 1, 4);
    mark(&mut state, 7, 10);
    state.set_live_status(TasEditorLiveStatus::Linked { cursor: 0, recording_available: true });
    state.install_linked_frame(0).unwrap();
    let action = edit_action(&mut state, true, TasSpecialInputMask { tilt_x: true, ..Default::default() }, TasSpecialTransform::Clear);
    state.reduce(wrap(action)).unwrap();
    assert!(state.execution_preview.is_none());
    assert_eq!(
        state.take_pending_host_request(),
        Some(TasEditorHostRequest::Live(TasEditorLiveAction::ReconstructAfterEdit { start: 7, end: 10 }))
    );
    assert_eq!(state.take_pending_host_request(), None);
    let action = edit_action(&mut state, true, TasSpecialInputMask { tilt_x: true, ..Default::default() }, TasSpecialTransform::Clear);
    state.reduce(wrap(action)).unwrap();
    assert_eq!(state.take_pending_host_request(), None);
}

#[test]
fn special_range_messages_name_the_target() {
    let mut state = fixture("gba", &[GBA_TILT_DEVICE], false);
    select(&mut state, 1, 4);
    let action = edit_action(&mut state, false, TasSpecialInputMask { tilt_x: true, ..Default::default() }, TasSpecialTransform::Clear);
    assert_eq!(
        state.reduce(wrap(action)).unwrap(),
        Some("Cleared selected recorded input in the input selection".to_owned())
    );
    mark(&mut state, 5, 7);
    mark(&mut state, 9, 11);
    let action = edit_action(&mut state, true, TasSpecialInputMask { tilt_y: true, ..Default::default() }, TasSpecialTransform::Reverse);
    assert_eq!(
        state.reduce(wrap(action)).unwrap(),
        Some("Reversed selected recorded input across 2 marked ranges".to_owned())
    );
}

#[test]
fn special_transform_zapper_clear_preserves_an_unchecked_channel() {
    let mut input = TasInputFrame {
        zapper: TasZapperInput {
            enabled: true,
            trigger: true,
            hit: false,
            screen_pos: Some(TasScreenPos { x: 30, y: 40 }),
        },
        ..TasInputFrame::default()
    };
    input.players[0].buttons = 1;
    let mut project = TasProject::new("special-ranges", identity("nes", &[NES_ZAPPER_DEVICE]), "main", "Main", 3);
    project.branches[0].frames[0] = input;
    let mut state = open(project);
    select(&mut state, 0, 1);
    let action = edit_action(&mut state, false, TasSpecialInputMask { zapper: true, ..Default::default() }, TasSpecialTransform::Clear);
    assert!(matches!(
        &action.target,
        TasSpecialRangeTarget::Selection(selection) if selection.start == 0 && selection.end == 1
    ));
    state.reduce(wrap(action)).unwrap();
    let frame = state.session.as_ref().unwrap().selected_branch().input_at(0);
    assert_eq!(frame.zapper, TasZapperInput::default());
    assert_eq!(frame.players[0].buttons, 1);
}

#[test]
fn special_transform_reverse_action_is_selection_stale_and_capability_scoped() {
    let mut state = open(TasProject::new("special-ranges", identity("gba", &[GBA_TILT_DEVICE]), "main", "Main", 12));
    select(&mut state, 0, 2);
    let action = edit_action(&mut state, false, TasSpecialInputMask { tilt_x: true, ..Default::default() }, TasSpecialTransform::Reverse);
    assert!(matches!(
        &action.target,
        TasSpecialRangeTarget::Selection(selection) if selection.start == 0 && selection.end == 2
    ));
    assert!(action.mask.tilt_x && !action.mask.zapper && !action.mask.camera);
    select(&mut state, 1, 2);
    assert!(
        state.reduce(wrap(action)).is_err(),
        "selection-targeted special transform must reject a stale selection"
    );
}
