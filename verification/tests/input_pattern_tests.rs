use tas_editor::editor::{TasEditorAction, TasEditorWindowState};
use tas_editor::editor_live::selected_frame_playback_target;
use tas_editor::identity::{TasDeviceIdentity, TasProjectIdentity};
use tas_editor::input::{TasControllerInput, TasDigest, TasInputFrame};
use tas_editor::project::TasProject;

fn state_with_project(frame_count: u64) -> TasEditorWindowState {
    let identity = TasProjectIdentity {
        system: "pce".to_owned(),
        devices: (1..=5)
            .map(|player| TasDeviceIdentity::new(&format!("p{player}"), "gamepad"))
            .collect(),
        firmware: Vec::new(),
        effective_media_digest: TasDigest(2),
    };
    let mut state = TasEditorWindowState::new();
    state
        .open_project(
            TasProject::new("ui-project", identity, "main", "Main", frame_count),
            "movie.ztas",
        )
        .unwrap();
    state
}

fn input(buttons: u8) -> TasInputFrame {
    TasInputFrame {
        players: [TasControllerInput { buttons, dpad: 0 }; 5],
        ..TasInputFrame::default()
    }
}

fn set_input(state: &mut TasEditorWindowState, start: u64, length: u64, input: TasInputFrame) {
    let session = state.session.as_mut().unwrap();
    let branch_id = session.selected_branch_id().to_owned();
    session.set_input_range(&branch_id, start, length, input).unwrap();
}

fn select_range(state: &mut TasEditorWindowState, start: u64, end: u64) {
    state.timeline_selection.select_range(start, end);
}

fn selection_snapshot(state: &mut TasEditorWindowState) -> Option<(String, u64, u64)> {
    let session = state.session.as_ref().unwrap();
    state
        .timeline_selection
        .snapshot(session)
        .map(|selection| (selection.branch_id, selection.start, selection.end))
}

#[test]
fn boundary_selection_collapses_rows_and_syncs_across_movie_edits() {
    let mut state = state_with_project(4);
    select_range(&mut state, 1, 3);
    state.reduce(TasEditorAction::SelectCursor(2)).unwrap();
    assert_eq!(selection_snapshot(&mut state), Some(("main".to_owned(), 2, 3)));
    set_input(&mut state, 0, 1, input(1));
    state
        .session
        .as_mut()
        .unwrap()
        .insert_neutral_frames(4, 1)
        .unwrap();
    assert_eq!(selection_snapshot(&mut state), Some(("main".to_owned(), 2, 3)));
    state
        .reduce(TasEditorAction::ForkBranch {
            id: "child".to_owned(),
            name: "Child".to_owned(),
        })
        .unwrap();
    state
        .reduce(TasEditorAction::SelectBranch("child".to_owned()))
        .unwrap();
    assert_eq!(selection_snapshot(&mut state), Some(("child".to_owned(), 2, 3)));
}

#[test]
fn selected_input_playback_runs_through_that_input_row() {
    assert_eq!(selected_frame_playback_target(0, 3), 1);
    assert_eq!(selected_frame_playback_target(1, 3), 2);
    assert_eq!(selected_frame_playback_target(3, 3), 3);
    assert_eq!(selected_frame_playback_target(u64::MAX, 3), 3);
}
