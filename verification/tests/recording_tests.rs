use tas_editor::editor::{TasEditorAction, TasEditorError, TasEditorWindowState};
use tas_editor::identity::{TasDeviceIdentity, TasProjectIdentity};
use tas_editor::input::TasDigest;
use tas_editor::input_columns::DigitalField;
use tas_editor::project::TasProject;

fn state_with_project(frame_count: u64) -> TasEditorWindowState {
    let identity = TasProjectIdentity {
        system: "pce".to_owned(),
        devices: (1..=5)
            .map(|player| TasDeviceIdentity::new(&format!("p{player}"), "gamepad"))
            .collect(),
        firmware: Vec::new(),
        effective_media_digest: TasDigest(2),
    };
    let mut state = TasEditorWindowState::new();
    state
        .open_project(
            TasProject::new("ui-project", identity, "main", "Main", frame_count),
            "movie.ztas",
        )
        .unwrap();
    state
}

fn fill_undo_history(state: &mut TasEditorWindowState, count: usize) -> Result<(), TasEditorError> {
    for _ in 0..count {
        state.reduce(TasEditorAction::ToggleDigital {
            cursor: 0,
            player: 0,
            field: DigitalField::Buttons,
            mask: 1,
        })?;
    }
    Ok(())
}

fn project_of(state: &TasEditorWindowState) -> TasProject {
    state.session.as_ref().unwrap().project().clone_project()
}

#[test]
fn recording_draft_at_a_full_history_restores_the_pre_draft_session() {
    let mut state = state_with_project(1);
    let initial = project_of(&state);
    fill_undo_history(&mut state, 32).unwrap();
    let before = project_of(&state);
    assert_eq!(state.session.as_ref().unwrap().undo_count(), 32);

    state.reduce(TasEditorAction::StartRecordingAtEnd).unwrap();
    state
        .reduce(TasEditorAction::ToggleDigital {
            cursor: 1,
            player: 0,
            field: DigitalField::Buttons,
            mask: 1,
        })
        .unwrap();
    state.reduce(TasEditorAction::StopRecording).unwrap();

    let session = state.session.as_mut().unwrap();
    assert_eq!(*session.project(), before);
    assert_eq!(session.selected_branch().frame_count(), 1);
    assert_eq!(session.cursor(), 0);
    assert_eq!(session.undo_count(), 32);
    assert_eq!(session.redo_count(), 0);
    for _ in 0..32 {
        assert!(session.undo());
    }
    assert!(!session.can_undo());
    assert_eq!(*session.project(), initial);
}

#[test]
fn recording_draft_after_the_last_history_slot_removes_both_row_and_input() {
    let mut state = state_with_project(1);
    fill_undo_history(&mut state, 31).unwrap();
    let before = project_of(&state);

    state.reduce(TasEditorAction::StartRecordingAtEnd).unwrap();
    state
        .reduce(TasEditorAction::ToggleDigital {
            cursor: 1,
            player: 0,
            field: DigitalField::Dpad,
            mask: 1,
        })
        .unwrap();
    state.reduce(TasEditorAction::StopRecording).unwrap();

    let session = state.session.as_ref().unwrap();
    assert_eq!(*session.project(), before);
    assert_eq!(session.selected_branch().frame_count(), 1);
    assert_eq!(session.undo_count(), 31);
    assert_eq!(session.redo_count(), 0);
}

#[test]
fn recording_draft_restores_a_preexisting_redo_path() {
    let mut state = state_with_project(1);
    fill_undo_history(&mut state, 2).unwrap();
    state.reduce(TasEditorAction::Undo).unwrap();
    let before = project_of(&state);
    assert_eq!(state.session.as_ref().unwrap().undo_count(), 1);
    assert_eq!(state.session.as_ref().unwrap().redo_count(), 1);

    state.reduce(TasEditorAction::StartRecordingAtEnd).unwrap();
    state.reduce(TasEditorAction::StopRecording).unwrap();

    let session = state.session.as_mut().unwrap();
    assert_eq!(*session.project(), before);
    assert_eq!(session.cursor(), 0);
    assert_eq!(session.undo_count(), 1);
    assert_eq!(session.redo_count(), 1);
    assert!(session.redo());
    assert_eq!(session.selected_branch().input_at(0).players[0].buttons, 0);
}

#[test]
fn recording_draft_remains_available_after_a_row_mismatch() {
    let mut state = state_with_project(1);
    let before = project_of(&state);

    state.reduce(TasEditorAction::StartRecordingAtEnd).unwrap();
    state.session.as_mut().unwrap().set_cursor(0).unwrap();
    assert!(state.reduce(TasEditorAction::CaptureRecordingFrame).is_err());
    assert!(state.recording.is_some());

    state.reduce(TasEditorAction::StopRecording).unwrap();
    assert!(state.recording.is_none());
    assert_eq!(project_of(&state), before);
}

#[test]
fn recording_draft_shutdown_autosave_recovers_only_accepted_project_bytes() {
    let mut state = state_with_project(1);
    fill_undo_history(&mut state, 32).unwrap();
    let expected = project_of(&state);

    state.reduce(TasEditorAction::StartRecordingAtEnd).unwrap();
    state
        .reduce(TasEditorAction::ToggleDigital {
            cursor: 1,
            player: 0,
            field: DigitalField::Buttons,
            mask: 1,
        })
        .unwrap();
    assert!(state.autosave_before_shutdown().is_some());
    assert!(state.recording.is_none());
    state.reduce(TasEditorAction::RecoverAutosave).unwrap();
    assert_eq!(project_of(&state), expected);
    assert_eq!(state.session.as_ref().unwrap().selected_branch().frame_count(), 1);
}

#[test]
fn recording_next_draft_keeps_the_accepted_row_and_discards_only_the_final_draft() {
    let mut state = state_with_project(1);

    state.reduce(TasEditorAction::StartRecordingAtEnd).unwrap();
    state
        .reduce(TasEditorAction::ToggleDigital {
            cursor: 1,
            player: 0,
            field: DigitalField::Buttons,
            mask: 1,
        })
        .unwrap();
    state.reduce(TasEditorAction::CaptureRecordingFrame).unwrap();
    state
        .reduce(TasEditorAction::ToggleDigital {
            cursor: 2,
            player: 0,
            field: DigitalField::Dpad,
            mask: 1,
        })
        .unwrap();
    state.reduce(TasEditorAction::StopRecording).unwrap();

    let session = state.session.as_ref().unwrap();
    assert_eq!(session.selected_branch().frame_count(), 2);
    assert_eq!(session.selected_branch().input_at(1).players[0].buttons, 1);
    assert_eq!(session.cursor(), 1);
    assert_eq!(session.undo_count(), 2);
}
