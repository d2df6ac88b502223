use std::ops::Range;

use tas_editor::editor::{TasEditorAction, TasEditorWindowState};
use tas_editor::editor_clipboard::TasInputClipboardAction;
use tas_editor::editor_edits::TasDigitalAutofireAction;
use tas_editor::identity::{TasDeviceIdentity, TasFirmwareIdentity, TasProjectIdentity};
use tas_editor::input::{TasControllerInput, TasDigest, TasInputFrame};
use tas_editor::live::TasEditorLiveStatus;
use tas_editor::project::TasProject;
use tas_editor::replay::ReplayEvent;
use tas_editor::selection::TasInputSelection;

fn open(project: TasProject) -> TasEditorWindowState {
    let mut state = TasEditorWindowState::new();
    state.open_project(project, "movie.ztas").unwrap();
    state
}

fn state_with_project(frame_count: u64) -> TasEditorWindowState {
    let identity = TasProjectIdentity {
        system: "pce".to_owned(),
        devices: (1..=5)
            .map(|player| TasDeviceIdentity::new(&format!("p{player}"), "gamepad"))
            .collect(),
        firmware: Vec::new(),
        effective_media_digest: TasDigest(2),
    };
    open(TasProject::new("ui-project", identity, "main", "Main", frame_count))
}

fn synthetic_state(system: &str, devices: &[&str], initial_input: TasInputFrame) -> TasEditorWindowState {
    let identity = TasProjectIdentity {
        system: system.to_owned(),
        devices: devices
            .iter()
            .enumerate()
            .map(|(index, device)| TasDeviceIdentity::new(&format!("special-{index}"), device))
            .collect(),
        firmware: Vec::new(),
        effective_media_digest: TasDigest(2),
    };
    let mut project = TasProject::new("special-input-project", identity, "main", "Main", 3);
    project.branches[0].frames[0] = initial_input;
    open(project)
}

fn fds_state(frame_count: u64, events: Vec<ReplayEvent>) -> TasEditorWindowState {
    let identity = TasProjectIdentity {
        system: "nes".to_owned(),
        devices: (1..=2)
            .map(|player| TasDeviceIdentity::new(&format!("p{player}"), "nes-standard-controller"))
            .collect(),
        firmware: vec![TasFirmwareIdentity::External {
            firmware_id: "nintendo.fds.bios".to_owned(),
            digest: TasDigest(2),
        }],
        effective_media_digest: TasDigest(1),
    };
    let mut project = TasProject::new("ui-fds", identity, "main", "Main", frame_count);
    project.branches[0].events = events;
    open(project)
}

fn set_input(state: &mut TasEditorWindowState, start: u64, length: u64, input: TasInputFrame) {
    let session = state.session.as_mut().unwrap();
    let branch_id = session.selected_branch_id().to_owned();
    session.set_input_range(&branch_id, start, length, input).unwrap();
}

#[derive(Clone, Copy)]
struct AutofireConfig {
    player: usize,
    buttons_mask: u8,
    dpad_mask: u8,
    period: u8,
    on_frames: u8,
}

const BUTTON_AUTOFIRE: AutofireConfig =
    AutofireConfig { player: 0, buttons_mask: 1, dpad_mask: 0, period: 2, on_frames: 1 };

fn autofire_action(state: &TasEditorWindowState, range: Range<u64>, config: AutofireConfig) -> TasEditorAction {
    let session = state.session.as_ref().unwrap();
    TasEditorAction::InputClipboard(TasInputClipboardAction::ApplyDigitalAutofire(TasDigitalAutofireAction {
        expected_project_digest: session.project_content_digest(),
        target_branch_id: session.selected_branch_id().to_owned(),
        target_movie_digest: session.project().branch_movie_digest(session.selected_branch_id()).unwrap(),
        selection: TasInputSelection {
            branch_id: session.selected_branch_id().to_owned(),
            start: range.start,
            end: range.end,
        },
        player: config.player,
        buttons_mask: config.buttons_mask,
        dpad_mask: config.dpad_mask,
        period: config.period,
        on_frames: config.on_frames,
    }))
}

fn select_range(state: &mut TasEditorWindowState, start: u64, end: u64) {
    state.timeline_selection.select_range(start, end);
}

fn project_of(state: &TasEditorWindowState) -> TasProject {
    state.session.as_ref().unwrap().project().clone_project()
}

#[test]
fn digital_autofire_preserves_other_players_axes_and_special_input() {
    let mut input = TasInputFrame::default();
    input.players[0] = TasControllerInput { buttons: 0b0000_0010, dpad: 0b0000_0100 };
    input.players[1] = TasControllerInput { buttons: 0b1010_0000, dpad: 0b0000_1000 };
    input.tilt_x_bits = 0x7FC0_0123;
    input.tilt_y_bits = 0xBF00_0000;
    let mut state = synthetic_state("gba", &["gba-tilt-sensor"], input);
    set_input(&mut state, 0, 3, input);
    select_range(&mut state, 0, 3);

    state.reduce(autofire_action(&state, 0..3, BUTTON_AUTOFIRE)).unwrap();

    let branch = state.session.as_ref().unwrap().selected_branch();
    for (frame, pressed) in [(0, true), (1, false), (2, true)] {
        let edited = branch.input_at(frame);
        assert_eq!(edited.players[0].buttons & !1, input.players[0].buttons);
        assert_eq!(edited.players[0].dpad, input.players[0].dpad);
        assert_eq!(edited.players[1], input.players[1]);
        assert_eq!((edited.tilt_x_bits, edited.tilt_y_bits), (input.tilt_x_bits, input.tilt_y_bits));
        assert_eq!(edited.players[0].buttons & 1 != 0, pressed);
    }
}

#[test]
fn digital_autofire_leaves_replay_events_untouched_and_is_one_undo_step() {
    let events = vec![ReplayEvent::FdsDiskSide { frame: 2, side: 1 }];
    let mut state = fds_state(6, events.clone());
    let input = TasInputFrame {
        players: [TasControllerInput { buttons: 0b0000_0010, dpad: 0 }; 5],
        ..TasInputFrame::default()
    };
    set_input(&mut state, 1, 4, input);
    select_range(&mut state, 1, 5);
    let before = project_of(&state);
    let before_undo = state.session.as_ref().unwrap().undo_count();

    state
        .reduce(autofire_action(&state, 1..5, AutofireConfig { period: 3, on_frames: 2, ..BUTTON_AUTOFIRE }))
        .unwrap();

    let after = project_of(&state);
    assert_ne!(after, before);
    assert_eq!(*state.session.as_ref().unwrap().selected_branch().events(), events);
    assert_eq!(state.session.as_ref().unwrap().undo_count(), before_undo + 1);
    state.reduce(TasEditorAction::Undo).unwrap();
    assert_eq!(project_of(&state), before);
    state.reduce(TasEditorAction::Redo).unwrap();
    assert_eq!(project_of(&state), after);
}

#[test]
fn digital_autofire_rejects_stale_selection_and_live_authority_without_mutation() {
    let mut state = state_with_project(5);
    select_range(&mut state, 0, 3);
    let stale = autofire_action(&state, 0..3, BUTTON_AUTOFIRE);
    select_range(&mut state, 1, 4);
    let before = project_of(&state);
    assert!(state.reduce(stale).is_err());
    assert_eq!(project_of(&state), before);

    select_range(&mut state, 1, 4);
    let locked = autofire_action(&state, 1..4, BUTTON_AUTOFIRE);
    state.set_live_status(TasEditorLiveStatus::Staging { completed: 0, total: 1 });
    assert!(state.reduce(locked).is_err());
    assert_eq!(project_of(&state), before);
}

#[test]
fn digital_autofire_rejects_invalid_bounds_coleco_and_no_ops_without_history() {
    let mut state = state_with_project(4);
    select_range(&mut state, 0, 4);
    let before = project_of(&state);
    let history = state.session.as_ref().unwrap().undo_count();
    for action in [
        autofire_action(&state, 0..4, AutofireConfig { buttons_mask: 0, dpad_mask: 0, ..BUTTON_AUTOFIRE }),
        autofire_action(&state, 0..4, AutofireConfig { period: 0, on_frames: 0, ..BUTTON_AUTOFIRE }),
        autofire_action(&state, 0..4, AutofireConfig { period: 61, ..BUTTON_AUTOFIRE }),
        autofire_action(&state, 0..4, AutofireConfig { on_frames: 3, ..BUTTON_AUTOFIRE }),
    ] {
        assert!(state.reduce(action).is_err());
    }
    assert_eq!(project_of(&state), before);
    assert_eq!(state.session.as_ref().unwrap().undo_count(), history);

    let no_op = autofire_action(&state, 0..4, AutofireConfig { on_frames: 0, ..BUTTON_AUTOFIRE });
    assert_eq!(state.reduce(no_op).unwrap(), Some("Digital autofire made no change".to_owned()));
    assert_eq!(state.session.as_ref().unwrap().undo_count(), history);

    let mut coleco = synthetic_state("coleco", &["standard-controller"], TasInputFrame::default());
    select_range(&mut coleco, 0, 3);
    let before = project_of(&coleco);
    assert!(coleco.reduce(autofire_action(&coleco, 0..3, BUTTON_AUTOFIRE)).is_err());
    assert_eq!(project_of(&coleco), before);
}

#[test]
fn autofire_errors_name_the_refused_setting() {
    let mut state = state_with_project(4);
    select_range(&mut state, 0, 4);
    let error = state
        .reduce(autofire_action(&state, 0..4, AutofireConfig { period: 61, ..BUTTON_AUTOFIRE }))
        .unwrap_err();
    assert_eq!(error.message(), "autofire period must be between 1 and 60 frames");
    let error = state
        .reduce(autofire_action(&state, 0..4, AutofireConfig { player: 5, ..BUTTON_AUTOFIRE }))
        .unwrap_err();
    assert_eq!(error.message(), "the TAS project does not declare that autofire player");
    assert_eq!(
        state.reduce(autofire_action(&state, 0..4, BUTTON_AUTOFIRE)).unwrap(),
        Some("Applied digital autofire".to_owned())
    );
}
