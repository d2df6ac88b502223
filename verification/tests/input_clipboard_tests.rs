use tas_editor::clipboard::TasClipboardError;
use tas_editor::editor::{TasEditorAction, TasEditorError, TasEditorWindowState};
use tas_editor::editor_clipboard::{
    clipboard_fits, copy_selection_action, TasInputClipboardAction, TasMaskedPasteAction, TasMaskedPasteDestination,
};
use tas_editor::identity::{TasDeviceIdentity, TasFirmwareIdentity, TasProjectIdentity};
use tas_editor::input::{
    TasCameraInput, TasControllerInput, TasDigest, TasDigitalInputMask, TasInputFrame,
    TasZapperInput,
};
use tas_editor::input_columns::DigitalField;
use tas_editor::live::TasEditorLiveStatus;
use tas_editor::project::{TasAsset, TasProject};
use tas_editor::replay::ReplayEvent;
use tas_editor::selection::TasInputSelection;
use tas_editor::special_input::POCKET_CAMERA_FRAME_BYTES;

fn open(project: TasProject) -> TasEditorWindowState {
    let mut state = TasEditorWindowState::new();
    state.open_project(project, "movie.ztas").unwrap();
    state
}

fn pce_project(frame_count: u64) -> TasProject {
    let identity = TasProjectIdentity {
        system: "pce".to_owned(),
        devices: (1..=5)
            .map(|player| TasDeviceIdentity::new(&format!("p{player}"), "gamepad"))
            .collect(),
        firmware: Vec::new(),
        effective_media_digest: TasDigest(2),
    };
    TasProject::new("ui-project", identity, "main", "Main", frame_count)
}

fn state_with_project(frame_count: u64) -> TasEditorWindowState {
    open(pce_project(frame_count))
}

fn synthetic_state(
    system: &str,
    devices: &[&str],
    initial_input: TasInputFrame,
    assets: Vec<(TasDigest, Vec<u8>)>,
) -> TasEditorWindowState {
    let identity = TasProjectIdentity {
        system: system.to_owned(),
        devices: devices
            .iter()
            .enumerate()
            .map(|(index, device)| TasDeviceIdentity::new(&format!("special-{index}"), device))
            .collect(),
        firmware: Vec::new(),
        effective_media_digest: TasDigest(2),
    };
    let mut project = TasProject::new("special-input-project", identity, "main", "Main", 3);
    project.branches[0].frames[0] = initial_input;
    for (digest, bytes) in assets {
        project.assets.push(TasAsset { digest, bytes });
    }
    open(project)
}

fn fds_state(frame_count: u64, events: Vec<ReplayEvent>) -> TasEditorWindowState {
    let identity = TasProjectIdentity {
        system: "nes".to_owned(),
        devices: (1..=2)
            .map(|player| TasDeviceIdentity::new(&format!("p{player}"), "nes-standard-controller"))
            .collect(),
        firmware: vec![TasFirmwareIdentity::External {
            firmware_id: "nintendo.fds.bios".to_owned(),
            digest: TasDigest(2),
        }],
        effective_media_digest: TasDigest(1),
    };
    let mut project = TasProject::new("ui-fds", identity, "main", "Main", frame_count);
    project.branches[0].events = events;
    open(project)
}

fn gba_two_player_tilt_state() -> TasEditorWindowState {
    let identity = TasProjectIdentity {
        system: "gba".to_owned(),
        devices: vec![
            TasDeviceIdentity::new("p1", "gamepad"),
            TasDeviceIdentity::new("p2", "gamepad"),
            TasDeviceIdentity::new("tilt", "gba-tilt-sensor"),
        ],
        firmware: Vec::new(),
        effective_media_digest: TasDigest(2),
    };
    open(TasProject::new("masked-paste-gba", identity, "main", "Main", 6))
}

fn set_input(state: &mut TasEditorWindowState, start: u64, length: u64, input: TasInputFrame) {
    let session = state.session.as_mut().unwrap();
    let branch_id = session.selected_branch_id().to_owned();
    session.set_input_range(&branch_id, start, length, input).unwrap();
}

fn input(buttons: u8) -> TasInputFrame {
    TasInputFrame {
        players: [TasControllerInput { buttons, dpad: 0 }; 5],
        ..TasInputFrame::default()
    }
}

fn project_of(state: &TasEditorWindowState) -> TasProject {
    state.session.as_ref().unwrap().project().clone_project()
}

fn copy_constant(state: &TasEditorWindowState, start: u64, length: u64, input: TasInputFrame) -> TasEditorAction {
    let session = state.session.as_ref().unwrap();
    TasEditorAction::InputClipboard(
        TasInputClipboardAction::copy_constant(
            session.project_content_digest(),
            session.selected_branch_id().to_owned(),
            session.project().branch_movie_digest(session.selected_branch_id()).unwrap(),
            start,
            length,
            input,
        )
        .unwrap(),
    )
}

fn paste_at_cursor(state: &TasEditorWindowState) -> TasEditorAction {
    let session = state.session.as_ref().unwrap();
    TasEditorAction::InputClipboard(TasInputClipboardAction::paste_at_cursor(
        session.project_content_digest(),
        session.selected_branch_id().to_owned(),
        session.project().branch_movie_digest(session.selected_branch_id()).unwrap(),
        session.cursor(),
        state.input_clipboard.generation(),
    ))
}

fn insert_at_cursor(state: &TasEditorWindowState) -> TasEditorAction {
    let session = state.session.as_ref().unwrap();
    TasEditorAction::InputClipboard(TasInputClipboardAction::insert_at_cursor(
        session.project_content_digest(),
        session.selected_branch_id().to_owned(),
        session.project().branch_movie_digest(session.selected_branch_id()).unwrap(),
        session.cursor(),
        state.input_clipboard.generation(),
    ))
}

fn paste_with(
    project_digest: TasDigest,
    branch_id: String,
    movie_digest: TasDigest,
    cursor: u64,
    generation: u64,
) -> TasEditorAction {
    TasEditorAction::InputClipboard(TasInputClipboardAction::paste_at_cursor(
        project_digest,
        branch_id,
        movie_digest,
        cursor,
        generation,
    ))
}

fn select_range(state: &mut TasEditorWindowState, start: u64, end: u64) {
    state.timeline_selection.select_range(start, end);
}

fn copy_selection(state: &TasEditorWindowState, start: u64, end: u64) -> TasEditorAction {
    let session = state.session.as_ref().unwrap();
    let branch_id = session.selected_branch_id().to_owned();
    let pattern = session.selected_branch().input_pattern(start, end - start).unwrap();
    TasEditorAction::InputClipboard(TasInputClipboardAction::copy_selection(
        session.project_content_digest(),
        branch_id.clone(),
        session.project().branch_movie_digest(&branch_id).unwrap(),
        start,
        pattern,
        (start, end),
    ))
}

fn copy_selection_with_events(state: &mut TasEditorWindowState, start: u64, end: u64) {
    select_range(state, start, end);
    let session = state.session.as_ref().unwrap();
    let branch = session.selected_branch();
    let events = branch
        .events()
        .iter()
        .filter(|event| (start..end).contains(&event.frame()))
        .cloned()
        .collect();
    let action = TasInputClipboardAction::copy_selection_with_events(
        session.project_content_digest(),
        session.project().branch_movie_digest(session.selected_branch_id()).unwrap(),
        branch.input_pattern(start, end - start).unwrap(),
        events,
        TasInputSelection { branch_id: session.selected_branch_id().to_owned(), start, end },
    );
    state.reduce(TasEditorAction::InputClipboard(action)).unwrap();
}

fn mask(player_zero: TasControllerInput, player_one: TasControllerInput) -> TasDigitalInputMask {
    let mut mask = TasDigitalInputMask::default();
    mask.players[0] = player_zero;
    mask.players[1] = player_one;
    mask
}

fn masked_paste_action(
    state: &TasEditorWindowState,
    mask: TasDigitalInputMask,
    destination: TasMaskedPasteDestination,
) -> TasEditorAction {
    let session = state.session.as_ref().unwrap();
    TasEditorAction::InputClipboard(TasInputClipboardAction::PasteMaskedControls(
        TasMaskedPasteAction {
            expected_project_digest: session.project_content_digest(),
            target_branch_id: session.selected_branch_id().to_owned(),
            target_movie_digest: session.project().branch_movie_digest(session.selected_branch_id()).unwrap(),
            clipboard_generation: state.input_clipboard.generation(),
            mask,
            destination,
        },
    ))
}

#[test]
fn retained_diff_copy_is_read_only_and_validates_its_whole_run() {
    let mut state = state_with_project(5);
    let pressed = input(1);
    set_input(&mut state, 1, 3, pressed);
    let before = project_of(&state);
    state.reduce(copy_constant(&state, 1, 3, pressed)).unwrap();
    assert!(state.input_clipboard.has_entry());
    assert_eq!(project_of(&state), before);
    assert!(state.reduce(copy_constant(&state, 1, 4, pressed)).is_err());
    assert!(state.reduce(copy_constant(&state, 0, 2, TasInputFrame::default())).is_err());
}

#[test]
fn paste_is_fixed_length_and_rejects_a_stale_cursor_without_history() {
    let mut state = state_with_project(5);
    let pressed = input(1);
    set_input(&mut state, 0, 2, pressed);
    state.reduce(copy_constant(&state, 0, 2, pressed)).unwrap();
    state.reduce(TasEditorAction::SelectCursor(3)).unwrap();
    let before_frames = state.session.as_ref().unwrap().selected_branch().frame_count();
    let before_history = state.session.as_ref().unwrap().undo_count();
    let before_rerecords = state.session.as_ref().unwrap().project().rerecord_count();
    assert_eq!(
        state.reduce(paste_at_cursor(&state)).unwrap(),
        Some("Pasted input pattern".to_owned())
    );
    assert_eq!(state.session.as_ref().unwrap().selected_branch().frame_count(), before_frames);
    assert_eq!(state.session.as_ref().unwrap().selected_branch().input_at(3), pressed);
    assert_eq!(state.session.as_ref().unwrap().undo_count(), before_history + 1);
    assert_eq!(state.session.as_ref().unwrap().project().rerecord_count(), before_rerecords + 1);
    state.reduce(TasEditorAction::Autosave).unwrap();
    assert_eq!(
        state.session.as_ref().unwrap().last_autosaved_generation(),
        Some(state.session.as_ref().unwrap().project().edit_generation())
    );

    let no_op_history = state.session.as_ref().unwrap().undo_count();
    assert_eq!(
        state.reduce(paste_at_cursor(&state)).unwrap(),
        Some("Input pattern made no change".to_owned())
    );
    assert_eq!(state.session.as_ref().unwrap().undo_count(), no_op_history);

    let stale = paste_at_cursor(&state);
    state.reduce(TasEditorAction::SelectCursor(2)).unwrap();
    let before = project_of(&state);
    assert!(state.reduce(stale).is_err());
    assert_eq!(project_of(&state), before);
}

#[test]
fn clipboard_survives_history_but_open_and_recovery_clear_it() {
    let mut state = state_with_project(4);
    let pressed = input(1);
    set_input(&mut state, 0, 1, pressed);
    state.reduce(copy_constant(&state, 0, 1, pressed)).unwrap();
    state
        .reduce(TasEditorAction::ToggleDigital { cursor: 2, player: 0, field: DigitalField::Dpad, mask: 1 })
        .unwrap();
    state.reduce(TasEditorAction::Undo).unwrap();
    state.reduce(TasEditorAction::Redo).unwrap();
    assert!(state.input_clipboard.has_entry());
    state.open_project(pce_project(4), "movie.ztas").unwrap();
    assert!(!state.input_clipboard.has_entry());
    set_input(&mut state, 0, 1, pressed);
    state.reduce(copy_constant(&state, 0, 1, pressed)).unwrap();
    state.reduce(TasEditorAction::Autosave).unwrap();
    state
        .reduce(TasEditorAction::ToggleDigital { cursor: 2, player: 0, field: DigitalField::Dpad, mask: 1 })
        .unwrap();
    state.reduce(TasEditorAction::RecoverAutosave).unwrap();
    assert!(!state.input_clipboard.has_entry());
}

#[test]
fn stale_generation_project_branch_movie_and_end_witnesses_are_atomic() {
    let mut state = state_with_project(4);
    let pressed = input(1);
    set_input(&mut state, 0, 2, pressed);
    state.reduce(copy_constant(&state, 0, 2, pressed)).unwrap();
    let stale_generation = paste_at_cursor(&state);
    state.reduce(copy_constant(&state, 0, 2, pressed)).unwrap();
    let before = project_of(&state);
    assert!(state.reduce(stale_generation).is_err());
    assert_eq!(project_of(&state), before);

    let stale_project = paste_at_cursor(&state);
    state
        .reduce(TasEditorAction::ToggleDigital { cursor: 2, player: 0, field: DigitalField::Buttons, mask: 1 })
        .unwrap();
    let before = project_of(&state);
    assert!(state.reduce(stale_project).is_err());
    assert_eq!(project_of(&state), before);

    let session = state.session.as_ref().unwrap();
    let project_digest = session.project_content_digest();
    let movie_digest = session.project().branch_movie_digest("main").unwrap();
    let generation = state.input_clipboard.generation();
    assert!(state
        .reduce(paste_with(project_digest, "missing".to_owned(), movie_digest, 0, generation))
        .is_err());
    assert!(state
        .reduce(paste_with(project_digest, "main".to_owned(), TasDigest(0xA5A5), 0, generation))
        .is_err());
    assert!(state
        .reduce(paste_with(project_digest, "main".to_owned(), movie_digest, 3, generation))
        .is_err());
}

#[test]
fn neutral_clipboard_clears_legacy_special_input_but_new_special_values_are_guarded() {
    let legacy_tilt = TasInputFrame { tilt_x_bits: 1, ..TasInputFrame::default() };
    let mut state = state_with_project(3);
    set_input(&mut state, 0, 1, legacy_tilt);
    state.reduce(copy_constant(&state, 1, 1, TasInputFrame::default())).unwrap();
    state.reduce(TasEditorAction::SelectCursor(0)).unwrap();
    state.reduce(paste_at_cursor(&state)).unwrap();
    assert_eq!(state.session.as_ref().unwrap().selected_branch().input_at(0), TasInputFrame::default());

    for unsupported in [
        legacy_tilt,
        TasInputFrame {
            zapper: TasZapperInput { enabled: true, trigger: true, ..TasZapperInput::default() },
            ..TasInputFrame::default()
        },
    ] {
        set_input(&mut state, 0, 1, unsupported);
        state.reduce(copy_constant(&state, 0, 1, unsupported)).unwrap();
        state.reduce(TasEditorAction::SelectCursor(1)).unwrap();
        let before = project_of(&state);
        assert!(state.reduce(paste_at_cursor(&state)).is_err());
        assert_eq!(project_of(&state), before);
        state.reduce(TasEditorAction::SelectCursor(0)).unwrap();
        set_input(&mut state, 0, 1, TasInputFrame::default());
    }
}

#[test]
fn camera_clipboard_rejects_wrong_sized_and_missing_assets() {
    let bytes = vec![0x55; POCKET_CAMERA_FRAME_BYTES - 1];
    let digest = TasDigest(0x55);
    let camera = TasInputFrame { camera: TasCameraInput::Blob(digest), ..TasInputFrame::default() };
    let mut state = synthetic_state("gb", &["game-boy-pocket-camera"], camera, vec![(digest, bytes)]);
    state.reduce(copy_constant(&state, 0, 1, camera)).unwrap();
    state.reduce(TasEditorAction::SelectCursor(1)).unwrap();
    assert!(state.reduce(paste_at_cursor(&state)).is_err());

    let bytes = vec![0xA5; POCKET_CAMERA_FRAME_BYTES];
    let digest = TasDigest(0xA5);
    let camera = TasInputFrame { camera: TasCameraInput::Blob(digest), ..TasInputFrame::default() };
    let mut state = synthetic_state("gb", &["game-boy-pocket-camera"], camera, vec![(digest, bytes)]);
    state.reduce(copy_constant(&state, 0, 1, camera)).unwrap();
    set_input(&mut state, 0, 1, TasInputFrame::default());
    assert_eq!(state.session.as_mut().unwrap().remove_camera_asset(digest), Ok(true));
    state.reduce(TasEditorAction::SelectCursor(1)).unwrap();
    let before = project_of(&state);
    assert!(state.reduce(paste_at_cursor(&state)).is_err());
    assert_eq!(project_of(&state), before);
}

#[test]
fn insert_at_cursor_grows_the_movie_and_selects_the_inserted_rows() {
    let mut state = state_with_project(4);
    let pressed = input(1);
    set_input(&mut state, 0, 2, pressed);
    state.reduce(copy_constant(&state, 0, 2, pressed)).unwrap();
    state.reduce(TasEditorAction::SelectCursor(3)).unwrap();
    let history = state.session.as_ref().unwrap().undo_count();
    assert_eq!(
        state.reduce(insert_at_cursor(&state)).unwrap(),
        Some("Inserted copied input frames".to_owned())
    );
    let session = state.session.as_ref().unwrap();
    assert_eq!(session.selected_branch().frame_count(), 6);
    assert_eq!(session.cursor(), 3);
    for (frame, expected) in [(0, pressed), (1, pressed), (2, TasInputFrame::default()), (3, pressed), (4, pressed), (5, TasInputFrame::default())] {
        assert_eq!(session.selected_branch().input_at(frame), expected);
    }
    assert_eq!(session.undo_count(), history + 1);
    assert_eq!(state.timeline_selection.selected_range(session), Some((3, 5)));
}

#[test]
fn sparse_selection_copy_is_immutable_and_paste_preserves_neutral_gaps() {
    let mut state = state_with_project(10);
    let first = input(1);
    let second = input(2);
    set_input(&mut state, 0, 1, first);
    set_input(&mut state, 2, 1, second);
    select_range(&mut state, 0, 4);
    let before = project_of(&state);
    state.reduce(copy_selection(&state, 0, 4)).unwrap();
    assert_eq!(project_of(&state), before);

    set_input(&mut state, 0, 1, TasInputFrame::default());
    state.reduce(TasEditorAction::SelectCursor(4)).unwrap();
    let session = state.session.as_ref().unwrap();
    let action = TasInputClipboardAction::paste_at_cursor(
        session.project_content_digest(),
        "main".to_owned(),
        session.project().branch_movie_digest("main").unwrap(),
        4,
        state.input_clipboard.generation(),
    );
    state.reduce(TasEditorAction::InputClipboard(action)).unwrap();
    let branch = state.session.as_ref().unwrap().selected_branch();
    assert_eq!(branch.input_at(4), first);
    assert_eq!(branch.input_at(5), TasInputFrame::default());
    assert_eq!(branch.input_at(6), second);
    assert_eq!(branch.input_at(7), TasInputFrame::default());
}

#[test]
fn sparse_paste_checks_every_non_neutral_generated_run() {
    let mut state = state_with_project(10);
    let regular = input(1);
    let unsupported = TasInputFrame { tilt_x_bits: 1, ..TasInputFrame::default() };
    set_input(&mut state, 0, 1, regular);
    set_input(&mut state, 2, 1, unsupported);
    select_range(&mut state, 0, 4);
    state.reduce(copy_selection(&state, 0, 4)).unwrap();
    state.reduce(TasEditorAction::SelectCursor(4)).unwrap();
    let (action, before) = {
        let session = state.session.as_ref().unwrap();
        (
            TasInputClipboardAction::paste_at_cursor(
                session.project_content_digest(),
                "main".to_owned(),
                session.project().branch_movie_digest("main").unwrap(),
                4,
                state.input_clipboard.generation(),
            ),
            session.project().clone_project(),
        )
    };
    assert!(state.reduce(TasEditorAction::InputClipboard(action)).is_err());
    assert_eq!(project_of(&state), before);
}

#[test]
fn tiling_is_bounded_and_rejects_stale_or_invalid_selection() {
    let mut state = state_with_project(10);
    let first = input(1);
    let second = input(2);
    set_input(&mut state, 0, 1, first);
    set_input(&mut state, 2, 1, second);
    select_range(&mut state, 0, 4);
    state.reduce(copy_selection(&state, 0, 4)).unwrap();
    let session = state.session.as_ref().unwrap();
    let action = TasInputClipboardAction::tile_selection(
        session.project_content_digest(),
        "main".to_owned(),
        session.project().branch_movie_digest("main").unwrap(),
        4,
        10,
        state.input_clipboard.generation(),
    );
    select_range(&mut state, 4, 10);
    state.reduce(TasEditorAction::InputClipboard(action)).unwrap();
    let branch = state.session.as_ref().unwrap().selected_branch();
    assert_eq!(branch.input_at(4), first);
    assert_eq!(branch.input_at(5), TasInputFrame::default());
    assert_eq!(branch.input_at(6), second);
    assert_eq!(branch.input_at(8), first);

    let session = state.session.as_ref().unwrap();
    let stale = TasInputClipboardAction::tile_selection(
        session.project_content_digest(),
        "main".to_owned(),
        session.project().branch_movie_digest("main").unwrap(),
        4,
        10,
        state.input_clipboard.generation(),
    );
    select_range(&mut state, 5, 10);
    assert!(state.reduce(TasEditorAction::InputClipboard(stale)).is_err());
}

#[test]
fn copied_drive_events_cannot_be_tiled() {
    let events = vec![ReplayEvent::FdsDiskSide { frame: 1, side: 1 }];
    let mut state = fds_state(8, events);
    copy_selection_with_events(&mut state, 0, 3);
    select_range(&mut state, 3, 8);
    let session = state.session.as_ref().unwrap();
    let action = TasInputClipboardAction::tile_selection(
        session.project_content_digest(),
        "main".to_owned(),
        session.project().branch_movie_digest("main").unwrap(),
        3,
        8,
        state.input_clipboard.generation(),
    );
    let error = state.reduce(TasEditorAction::InputClipboard(action)).unwrap_err();
    assert_eq!(error.message(), "copied drive events cannot be tiled safely");
}

#[test]
fn pasted_drive_events_replace_the_target_run_events() {
    let events = vec![
        ReplayEvent::FdsDiskSide { frame: 1, side: 1 },
        ReplayEvent::FdsDiskSide { frame: 5, side: 0 },
    ];
    let mut state = fds_state(8, events);
    copy_selection_with_events(&mut state, 0, 3);
    state.reduce(TasEditorAction::SelectCursor(4)).unwrap();
    state.reduce(paste_at_cursor(&state)).unwrap();
    let branch = state.session.as_ref().unwrap().selected_branch();
    assert_eq!(
        *branch.events(),
        vec![
            ReplayEvent::FdsDiskSide { frame: 1, side: 1 },
            ReplayEvent::FdsDiskSide { frame: 5, side: 1 },
        ]
    );
}

#[test]
fn cursor_masked_paste_copies_checked_players_clears_neutral_source_and_undoes() {
    let mut state = gba_two_player_tilt_state();
    let source = TasInputFrame {
        players: [
            TasControllerInput { buttons: 1, dpad: 0 },
            TasControllerInput { buttons: 0, dpad: 4 },
            TasControllerInput::default(),
            TasControllerInput::default(),
            TasControllerInput::default(),
        ],
        ..TasInputFrame::default()
    };
    set_input(&mut state, 0, 1, source);
    let destination = [
        TasInputFrame {
            players: [
                TasControllerInput { buttons: 0b10_0001, dpad: 8 },
                TasControllerInput { buttons: 0b10, dpad: 12 },
                TasControllerInput { buttons: 0b10_0000, dpad: 2 },
                TasControllerInput::default(),
                TasControllerInput::default(),
            ],
            tilt_x_bits: 0.25f32.to_bits(),
            tilt_y_bits: (-0.5f32).to_bits(),
            ..TasInputFrame::default()
        },
        TasInputFrame {
            players: [
                TasControllerInput { buttons: 0b10_0001, dpad: 1 },
                TasControllerInput { buttons: 0b10, dpad: 12 },
                TasControllerInput { buttons: 0b1_0000, dpad: 1 },
                TasControllerInput::default(),
                TasControllerInput::default(),
            ],
            tilt_x_bits: (-0.75f32).to_bits(),
            tilt_y_bits: 0.125f32.to_bits(),
            ..TasInputFrame::default()
        },
    ];
    for (offset, input) in destination.into_iter().enumerate() {
        set_input(&mut state, offset as u64 + 3, 1, input);
    }
    copy_selection_with_events(&mut state, 0, 2);
    state.reduce(TasEditorAction::SelectCursor(3)).unwrap();
    let mask = mask(TasControllerInput { buttons: 1, dpad: 0 }, TasControllerInput { buttons: 0, dpad: 4 });
    let before = project_of(&state);
    let history = state.session.as_ref().unwrap().undo_count();

    assert_eq!(
        state
            .reduce(masked_paste_action(&state, mask, TasMaskedPasteDestination::Cursor(3)))
            .unwrap(),
        Some("Pasted checked controls".to_owned())
    );
    let branch = state.session.as_ref().unwrap().selected_branch();
    let first = branch.input_at(3);
    assert_eq!(first.players[0].buttons, 0b10_0001);
    assert_eq!(first.players[1].dpad, 12);
    assert_eq!(first.players[2], destination[0].players[2]);
    assert_eq!((first.tilt_x_bits, first.tilt_y_bits), (destination[0].tilt_x_bits, destination[0].tilt_y_bits));
    let second = branch.input_at(4);
    assert_eq!(second.players[0].buttons, 0b10_0000);
    assert_eq!(second.players[1].dpad, 8);
    assert_eq!(second.players[2], destination[1].players[2]);
    assert_eq!((second.tilt_x_bits, second.tilt_y_bits), (destination[1].tilt_x_bits, destination[1].tilt_y_bits));
    assert_eq!(state.session.as_ref().unwrap().undo_count(), history + 1);
    let after = project_of(&state);
    state.reduce(TasEditorAction::Undo).unwrap();
    assert_eq!(project_of(&state), before);
    state.reduce(TasEditorAction::Redo).unwrap();
    assert_eq!(project_of(&state), after);
}

#[test]
fn selection_masked_paste_tiles_without_changing_copied_or_destination_events() {
    let events = vec![
        ReplayEvent::FdsDiskSide { frame: 1, side: 1 },
        ReplayEvent::FdsDiskSide { frame: 4, side: 2 },
        ReplayEvent::FdsDiskSide { frame: 6, side: 3 },
    ];
    let mut state = fds_state(8, events.clone());
    for (frame, buttons) in [(0, 1), (1, 0), (2, 1)] {
        set_input(&mut state, frame, 1, TasInputFrame {
            players: [TasControllerInput { buttons, dpad: 0 }; 5],
            ..TasInputFrame::default()
        });
    }
    for frame in 3..8 {
        set_input(&mut state, frame, 1, TasInputFrame {
            players: [TasControllerInput { buttons: 0b10, dpad: frame as u8 }; 5],
            ..TasInputFrame::default()
        });
    }
    copy_selection_with_events(&mut state, 0, 3);
    select_range(&mut state, 3, 8);
    let mask = mask(TasControllerInput { buttons: 1, dpad: 0 }, TasControllerInput::default());

    assert_eq!(
        state
            .reduce(masked_paste_action(
                &state,
                mask,
                TasMaskedPasteDestination::Selection(TasInputSelection {
                    branch_id: "main".to_owned(),
                    start: 3,
                    end: 8,
                }),
            ))
            .unwrap(),
        Some("Tiled checked controls".to_owned())
    );
    let branch = state.session.as_ref().unwrap().selected_branch();
    for (frame, pressed) in [(3, true), (4, false), (5, true), (6, true), (7, false)] {
        let input = branch.input_at(frame);
        assert_eq!(input.players[0].buttons & 1 != 0, pressed);
        assert_eq!(input.players[0].buttons & !1, 0b10);
        assert_eq!(input.players[0].dpad, frame as u8);
    }
    assert_eq!(*branch.events(), events);
}

#[test]
fn masked_paste_rejects_stale_invalid_no_op_and_locked_requests_atomically() {
    let mut state = state_with_project(5);
    let source = TasInputFrame {
        players: [TasControllerInput { buttons: 1, dpad: 0 }; 5],
        ..TasInputFrame::default()
    };
    set_input(&mut state, 0, 1, source);
    set_input(&mut state, 2, 1, source);
    copy_selection_with_events(&mut state, 0, 1);
    state.reduce(TasEditorAction::SelectCursor(2)).unwrap();
    let valid_mask = mask(TasControllerInput { buttons: 1, dpad: 0 }, TasControllerInput::default());

    let stale_generation = masked_paste_action(&state, valid_mask, TasMaskedPasteDestination::Cursor(2));
    copy_selection_with_events(&mut state, 0, 1);
    let before = project_of(&state);
    assert!(state.reduce(stale_generation).is_err());
    assert_eq!(project_of(&state), before);

    state.reduce(TasEditorAction::SelectCursor(2)).unwrap();
    let stale_cursor = masked_paste_action(&state, valid_mask, TasMaskedPasteDestination::Cursor(2));
    state.reduce(TasEditorAction::SelectCursor(3)).unwrap();
    let before = project_of(&state);
    assert!(state.reduce(stale_cursor).is_err());
    assert_eq!(project_of(&state), before);

    select_range(&mut state, 1, 4);
    let stale_selection = masked_paste_action(
        &state,
        valid_mask,
        TasMaskedPasteDestination::Selection(TasInputSelection { branch_id: "main".to_owned(), start: 1, end: 4 }),
    );
    select_range(&mut state, 2, 5);
    let before = project_of(&state);
    assert!(state.reduce(stale_selection).is_err());
    assert_eq!(project_of(&state), before);

    state.reduce(TasEditorAction::SelectCursor(2)).unwrap();
    let history = state.session.as_ref().unwrap().undo_count();
    assert_eq!(
        state
            .reduce(masked_paste_action(&state, valid_mask, TasMaskedPasteDestination::Cursor(2)))
            .unwrap(),
        Some("Control paste made no change".to_owned())
    );
    assert_eq!(state.session.as_ref().unwrap().undo_count(), history);
    for invalid_mask in [
        TasDigitalInputMask::default(),
        mask(TasControllerInput { buttons: 0, dpad: 0b1_0000 }, TasControllerInput::default()),
    ] {
        let before = project_of(&state);
        assert!(state
            .reduce(masked_paste_action(&state, invalid_mask, TasMaskedPasteDestination::Cursor(2)))
            .is_err());
        assert_eq!(project_of(&state), before);
    }

    let locked = masked_paste_action(&state, valid_mask, TasMaskedPasteDestination::Cursor(2));
    let before = project_of(&state);
    state.set_live_status(TasEditorLiveStatus::Staging { completed: 0, total: 1 });
    assert!(state.reduce(locked).is_err());
    assert_eq!(project_of(&state), before);

    let mut coleco = synthetic_state("coleco", &["standard-controller"], TasInputFrame::default(), Vec::new());
    let before = project_of(&coleco);
    assert!(coleco
        .reduce(masked_paste_action(&coleco, valid_mask, TasMaskedPasteDestination::Cursor(0)))
        .is_err());
    assert_eq!(project_of(&coleco), before);
}

#[test]
fn pasting_a_copy_with_events_back_in_place_changes_nothing() {
    let events = vec![
        ReplayEvent::FdsDiskSide { frame: 1, side: 0 },
        ReplayEvent::FdsDiskSide { frame: 3, side: 1 },
        ReplayEvent::FdsDiskSide { frame: 6, side: 2 },
    ];
    let mut state = fds_state(8, events);
    set_input(&mut state, 2, 3, input(1));
    let before = project_of(&state);
    copy_selection_with_events(&mut state, 2, 5);
    state.reduce(TasEditorAction::SelectCursor(2)).unwrap();

    let message = state.reduce(paste_at_cursor(&state)).unwrap();

    assert_eq!(message.as_deref(), Some("Input pattern made no change"));
    assert!(project_of(&state) == before);
    assert!(!state.session.as_ref().unwrap().can_redo());
}

#[test]
fn the_panel_copy_takes_the_selected_frames_and_their_events() {
    let events = vec![
        ReplayEvent::FdsDiskSide { frame: 1, side: 0 },
        ReplayEvent::FdsDiskSide { frame: 3, side: 1 },
        ReplayEvent::FdsDiskSide { frame: 6, side: 2 },
    ];
    let mut state = fds_state(8, events);
    set_input(&mut state, 2, 2, input(1));
    select_range(&mut state, 2, 5);
    let session = state.session.as_ref().unwrap();
    let selection = TasInputSelection { branch_id: "main".to_owned(), start: 2, end: 5 };

    let action = copy_selection_action(session, &selection).unwrap();
    state.reduce(TasEditorAction::InputClipboard(action)).unwrap();
    let entry = state.input_clipboard.entry.as_ref().unwrap();
    assert_eq!(entry.start, 2);
    assert_eq!(entry.pattern.length(), 3);
    assert_eq!(entry.events, vec![ReplayEvent::FdsDiskSide { frame: 1, side: 1 }]);

    let session = state.session.as_ref().unwrap();
    let empty = TasInputSelection { branch_id: "main".to_owned(), start: 4, end: 4 };
    assert_eq!(copy_selection_action(session, &empty).unwrap_err(), TasEditorError::InvalidSelection);
    let missing = TasInputSelection { branch_id: "gone".to_owned(), start: 0, end: 1 };
    assert_eq!(copy_selection_action(session, &missing).unwrap_err(), TasEditorError::StaleBranch);

    assert_eq!(clipboard_fits(5, 3, 8), (true, true));
    assert_eq!(clipboard_fits(6, 3, 8), (false, true));
    assert_eq!(clipboard_fits(u64::MAX, 3, 8), (false, false));
}

#[test]
fn insert_refuses_an_empty_or_superseded_clipboard() {
    let mut state = state_with_project(4);
    let insert = |state: &TasEditorWindowState, generation: u64| {
        let session = state.session.as_ref().unwrap();
        TasInputClipboardAction::insert_at_cursor(
            session.project_content_digest(),
            session.selected_branch_id().to_owned(),
            session.project().branch_movie_digest(session.selected_branch_id()).unwrap(),
            session.cursor(),
            generation,
        )
    };
    let empty = insert(&state, state.input_clipboard.generation());
    assert_eq!(state.apply_input_clipboard_action(empty), Err(TasEditorError::Clipboard(TasClipboardError::Empty)));
    set_input(&mut state, 0, 2, input(1));
    state.reduce(copy_constant(&state, 0, 2, input(1))).unwrap();
    let stale = insert(&state, state.input_clipboard.generation() + 1);
    assert_eq!(state.apply_input_clipboard_action(stale), Err(TasEditorError::Clipboard(TasClipboardError::Stale)));
    assert_eq!(state.session.as_ref().unwrap().selected_branch().frame_count(), 4);
    let current = insert(&state, state.input_clipboard.generation());
    assert_eq!(state.apply_input_clipboard_action(current), Ok("Inserted copied input frames".to_owned()));
    assert_eq!(state.session.as_ref().unwrap().selected_branch().frame_count(), 6);
}
