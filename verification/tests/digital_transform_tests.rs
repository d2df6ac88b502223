use tas_editor::editor::{TasEditorAction, TasEditorWindowState};
use tas_editor::editor_clipboard::TasInputClipboardAction;
use tas_editor::editor_edits::TasDigitalTransformAction;
use tas_editor::identity::{TasDeviceIdentity, TasFirmwareIdentity, TasProjectIdentity};
use tas_editor::input::{
    TasControllerInput, TasDigest, TasDigitalInputMask, TasDigitalTransform, TasInputFrame,
};
use tas_editor::input_columns::DigitalField;
use tas_editor::live::TasEditorLiveStatus;
use tas_editor::project::TasProject;
use tas_editor::replay::ReplayEvent;
use tas_editor::selection::TasInputSelection;

fn open(project: TasProject) -> TasEditorWindowState {
    let mut state = TasEditorWindowState::new();
    state.open_project(project, "movie.ztas").unwrap();
    state
}

fn state_with_project(frame_count: u64) -> TasEditorWindowState {
    let identity = TasProjectIdentity {
        system: "pce".to_owned(),
        devices: (1..=5)
            .map(|player| TasDeviceIdentity::new(&format!("p{player}"), "gamepad"))
            .collect(),
        firmware: Vec::new(),
        effective_media_digest: TasDigest(2),
    };
    open(TasProject::new("ui-project", identity, "main", "Main", frame_count))
}

fn coleco_state(frame_count: u64) -> TasEditorWindowState {
    let identity = TasProjectIdentity {
        system: "coleco".to_owned(),
        devices: vec![TasDeviceIdentity::new("special-0", "standard-controller")],
        firmware: Vec::new(),
        effective_media_digest: TasDigest(2),
    };
    open(TasProject::new("coleco-project", identity, "main", "Main", frame_count))
}

fn fds_two_player_state(frame_count: u64, events: Vec<ReplayEvent>) -> TasEditorWindowState {
    let identity = TasProjectIdentity {
        system: "nes".to_owned(),
        devices: (1..=2)
            .map(|player| TasDeviceIdentity::new(&format!("p{player}"), "nes-standard-controller"))
            .collect(),
        firmware: vec![TasFirmwareIdentity::External {
            firmware_id: "nintendo.fds.bios".to_owned(),
            digest: TasDigest(2),
        }],
        effective_media_digest: TasDigest(1),
    };
    let mut project = TasProject::new("ui-fds-digital-transform", identity, "main", "Main", frame_count);
    project.branches[0].events = events;
    open(project)
}

fn set_input(state: &mut TasEditorWindowState, frame: u64, input: TasInputFrame) {
    let session = state.session.as_mut().unwrap();
    let branch_id = session.selected_branch_id().to_owned();
    session.set_input_range(&branch_id, frame, 1, input).unwrap();
}

fn select_range(state: &mut TasEditorWindowState, start: u64, end: u64) {
    state.timeline_selection.select_range(start, end);
}

fn transform_action(
    state: &TasEditorWindowState,
    start: u64,
    end: u64,
    mask: TasDigitalInputMask,
    transform: TasDigitalTransform,
) -> TasEditorAction {
    let session = state.session.as_ref().unwrap();
    TasEditorAction::InputClipboard(TasInputClipboardAction::ApplyDigitalTransform(
        TasDigitalTransformAction {
            expected_project_digest: session.project_content_digest(),
            target_branch_id: session.selected_branch_id().to_owned(),
            target_movie_digest: session
                .project()
                .branch_movie_digest(session.selected_branch_id())
                .unwrap(),
            selection: TasInputSelection {
                branch_id: session.selected_branch_id().to_owned(),
                start,
                end,
            },
            mask,
            transform,
        },
    ))
}

fn mask(player_zero: TasControllerInput, player_one: TasControllerInput) -> TasDigitalInputMask {
    let mut mask = TasDigitalInputMask::default();
    mask.players[0] = player_zero;
    mask.players[1] = player_one;
    mask
}

fn varied_input(index: u8) -> TasInputFrame {
    TasInputFrame {
        players: [
            TasControllerInput { buttons: 0b1100 | index, dpad: 0b1000 | index },
            TasControllerInput { buttons: 0b1000 | index, dpad: 0b1010 | index },
            TasControllerInput { buttons: index, dpad: index.rotate_left(1) },
            TasControllerInput::default(),
            TasControllerInput::default(),
        ],
        ..TasInputFrame::default()
    }
}

fn project_of(state: &TasEditorWindowState) -> TasProject {
    state.session.as_ref().unwrap().project().clone_project()
}

#[test]
fn reverse_moves_only_the_selected_controls_and_preserves_fds_events() {
    let events = vec![
        ReplayEvent::FdsDiskSide { frame: 2, side: 1 },
        ReplayEvent::FdsDiskSide { frame: 5, side: 2 },
    ];
    let mut state = fds_two_player_state(6, events.clone());
    for index in 0..4 {
        set_input(&mut state, index + 1, varied_input(index as u8));
    }
    let before = (1..5)
        .map(|frame| state.session.as_ref().unwrap().selected_branch().input_at(frame))
        .collect::<Vec<_>>();
    let mask = mask(
        TasControllerInput { buttons: 0b0011, dpad: 0 },
        TasControllerInput { buttons: 0, dpad: 0b0101 },
    );
    select_range(&mut state, 1, 5);
    let history = state.session.as_ref().unwrap().undo_count();

    state
        .reduce(transform_action(&state, 1, 5, mask, TasDigitalTransform::Reverse))
        .unwrap();

    let branch = state.session.as_ref().unwrap().selected_branch();
    for (offset, source) in before.iter().copied().enumerate() {
        let mirrored = before[before.len() - 1 - offset];
        let mut expected = source;
        expected.players[0].buttons =
            (source.players[0].buttons & !0b0011) | (mirrored.players[0].buttons & 0b0011);
        expected.players[1].dpad =
            (source.players[1].dpad & !0b0101) | (mirrored.players[1].dpad & 0b0101);
        assert_eq!(branch.input_at(offset as u64 + 1), expected);
    }
    assert_eq!(*branch.events(), events);
    assert_eq!(state.session.as_ref().unwrap().undo_count(), history + 1);
}

#[test]
fn invert_is_undoable_in_one_transaction() {
    let mut state = state_with_project(4);
    let inputs = [
        TasInputFrame {
            players: [TasControllerInput { buttons: 0b1010, dpad: 0b1001 }; 5],
            ..TasInputFrame::default()
        },
        TasInputFrame {
            players: [TasControllerInput { buttons: 0b0111, dpad: 0b0110 }; 5],
            ..TasInputFrame::default()
        },
    ];
    for (offset, input) in inputs.into_iter().enumerate() {
        set_input(&mut state, offset as u64 + 1, input);
    }
    let before = project_of(&state);
    let history = state.session.as_ref().unwrap().undo_count();
    let mask = mask(
        TasControllerInput { buttons: 0b0101, dpad: 0b0011 },
        TasControllerInput::default(),
    );
    select_range(&mut state, 1, 3);

    state
        .reduce(transform_action(&state, 1, 3, mask, TasDigitalTransform::Invert))
        .unwrap();
    let after = project_of(&state);
    assert_ne!(after, before);
    assert_eq!(state.session.as_ref().unwrap().undo_count(), history + 1);
    for (offset, input) in inputs.into_iter().enumerate() {
        let edited = state.session.as_ref().unwrap().selected_branch().input_at(offset as u64 + 1);
        assert_eq!(edited.players[0].buttons, input.players[0].buttons ^ 0b0101);
        assert_eq!(edited.players[0].dpad, input.players[0].dpad ^ 0b0011);
        assert_eq!(edited.players[1..], input.players[1..]);
    }
    state.reduce(TasEditorAction::Undo).unwrap();
    assert_eq!(project_of(&state), before);
}

#[test]
fn clear_changes_only_its_mask_once_and_repeated_clear_is_a_no_op() {
    let mut state = state_with_project(4);
    let source = TasInputFrame {
        players: [
            TasControllerInput { buttons: 0b1011, dpad: 0b0110 },
            TasControllerInput { buttons: 0b0101, dpad: 0b1001 },
            TasControllerInput::default(),
            TasControllerInput::default(),
            TasControllerInput::default(),
        ],
        ..TasInputFrame::default()
    };
    set_input(&mut state, 1, source);
    set_input(&mut state, 2, source);
    let mask = mask(TasControllerInput { buttons: 0b0011, dpad: 0 }, TasControllerInput::default());
    select_range(&mut state, 1, 3);
    let history = state.session.as_ref().unwrap().undo_count();

    assert_eq!(
        state
            .reduce(transform_action(&state, 1, 3, mask, TasDigitalTransform::Clear))
            .unwrap(),
        Some("Cleared selected controls".to_owned())
    );
    for frame in 1..3 {
        let edited = state.session.as_ref().unwrap().selected_branch().input_at(frame);
        assert_eq!(edited.players[0].buttons, 0b1000);
        assert_eq!(edited.players[0].dpad, source.players[0].dpad);
        assert_eq!(edited.players[1], source.players[1]);
    }
    assert_eq!(state.session.as_ref().unwrap().undo_count(), history + 1);
    assert_eq!(
        state
            .reduce(transform_action(&state, 1, 3, mask, TasDigitalTransform::Clear))
            .unwrap(),
        Some("Control edit made no change".to_owned())
    );
    assert_eq!(state.session.as_ref().unwrap().undo_count(), history + 1);

    let locked = transform_action(&state, 1, 3, mask, TasDigitalTransform::Invert);
    let before = project_of(&state);
    state.set_live_status(TasEditorLiveStatus::Staging { completed: 0, total: 1 });
    assert!(state.reduce(locked).is_err());
    assert_eq!(project_of(&state), before);
}

#[test]
fn transform_rejects_stale_invalid_and_coleco_requests_without_mutation() {
    let mut state = state_with_project(4);
    let valid_mask = mask(TasControllerInput { buttons: 1, dpad: 0 }, TasControllerInput::default());
    select_range(&mut state, 0, 3);
    let stale_selection = transform_action(&state, 0, 3, valid_mask, TasDigitalTransform::Clear);
    select_range(&mut state, 1, 4);
    let before = project_of(&state);
    assert!(state.reduce(stale_selection).is_err());
    assert_eq!(project_of(&state), before);

    select_range(&mut state, 0, 3);
    let stale_project = transform_action(&state, 0, 3, valid_mask, TasDigitalTransform::Clear);
    state
        .reduce(TasEditorAction::ToggleDigital {
            cursor: 0,
            player: 0,
            field: DigitalField::Buttons,
            mask: 1,
        })
        .unwrap();
    let before = project_of(&state);
    assert!(state.reduce(stale_project).is_err());
    assert_eq!(project_of(&state), before);

    select_range(&mut state, 0, 3);
    for invalid_mask in [
        TasDigitalInputMask::default(),
        mask(TasControllerInput { buttons: 0, dpad: 0b0001_0000 }, TasControllerInput::default()),
        mask(TasControllerInput { buttons: 0, dpad: 0b1000_0000 }, TasControllerInput { buttons: 0, dpad: 0 }),
    ] {
        let before = project_of(&state);
        assert!(state
            .reduce(transform_action(&state, 0, 3, invalid_mask, TasDigitalTransform::Clear))
            .is_err());
        assert_eq!(project_of(&state), before);
    }

    let mut coleco = coleco_state(3);
    select_range(&mut coleco, 0, 3);
    let before = project_of(&coleco);
    assert!(coleco
        .reduce(transform_action(&coleco, 0, 3, valid_mask, TasDigitalTransform::Clear))
        .is_err());
    assert_eq!(project_of(&coleco), before);
}
