use tas_editor::branch_diff::{
    BranchDiffRequestKey, BranchDiffWorkerResult, InFlightBranchDiff, TasBranchDiffEditorState,
    TasBranchDiffPresentationKind,
};
use tas_editor::editor::{TasEditorAction, TasEditorError, TasEditorWindowState};
use tas_editor::summaries::TasBranchDiffJumpAction;
use tas_editor::identity::{TasDeviceIdentity, TasProjectIdentity};
use tas_editor::editor_clipboard::TasInputClipboardAction;
use tas_editor::input::{TasDigest, TasInputFrame};
use tas_editor::input_columns::DigitalField;
use tas_editor::project::TasProject;

fn key(value: u64) -> BranchDiffRequestKey {
    BranchDiffRequestKey {
        project_digest: TasDigest(value),
        source_branch_id: "source".to_owned(),
        target_branch_id: "target".to_owned(),
    }
}

fn running(state: &mut TasBranchDiffEditorState<u8>, key: BranchDiffRequestKey) {
    state.in_flight = Some(InFlightBranchDiff { key, generation: state.generation, cancel_requested: false });
}

fn state_with_project(frame_count: u64) -> TasEditorWindowState {
    let identity = TasProjectIdentity {
        system: "pce".to_owned(),
        devices: (1..=5).map(|player| TasDeviceIdentity::new(&format!("p{player}"), "gamepad")).collect(),
        firmware: Vec::new(),
        effective_media_digest: TasDigest(2),
    };
    let mut state = TasEditorWindowState::new();
    state.open_project(TasProject::new("ui-project", identity, "main", "Main", frame_count), "movie.ztas").unwrap();
    state
}

#[test]
fn superseded_worker_is_held_then_drained_without_installing_a_late_result() {
    let mut state = TasBranchDiffEditorState::<u8>::new();
    state.request_key = Some(key(1));
    state.generation = 1;
    running(&mut state, key(1));

    state.request_key = Some(key(2));
    state.generation += 1;
    state.in_flight.as_mut().unwrap().cancel_requested = true;
    assert!(state.cancel_requested());
    assert!(state.in_flight.is_some());
    assert_eq!(state.presentation_kind(), TasBranchDiffPresentationKind::Pending);

    state.install_worker_result(BranchDiffWorkerResult::Completed(Ok(1)));
    assert!(state.in_flight.is_none());
    assert!(state.cache.is_none());
    assert!(state.failure.is_none());
    assert_eq!(state.presentation_kind(), TasBranchDiffPresentationKind::Pending);
}

#[test]
fn clear_cancels_but_keeps_the_one_worker_until_no_target_result_is_drained() {
    let mut state = TasBranchDiffEditorState::<u8>::new();
    state.request_key = Some(key(3));
    state.generation = 1;
    running(&mut state, key(3));

    state.clear();
    assert!(state.cancel_requested());
    assert!(state.in_flight.is_some());
    assert_eq!(state.presentation_kind(), TasBranchDiffPresentationKind::NoTarget);

    state.install_worker_result(BranchDiffWorkerResult::Completed(Ok(3)));
    assert!(state.in_flight.is_none());
    assert!(state.cache.is_none());
    assert!(state.failure.is_none());
}

#[test]
fn current_worker_failure_is_cached_and_pending_never_has_a_diff() {
    let mut state = TasBranchDiffEditorState::<u8>::new();
    state.request_key = Some(key(4));
    state.generation = 4;
    running(&mut state, key(4));
    assert_eq!(state.presentation_kind(), TasBranchDiffPresentationKind::Pending);
    assert!(state.cached_diff().is_none());

    state.install_worker_result(BranchDiffWorkerResult::Completed(Err("worker failed".to_owned())));
    assert_eq!(state.presentation_kind(), TasBranchDiffPresentationKind::Failed);
    assert_eq!(state.failure_message().map(String::as_str), Some("worker failed"));
    assert!(state.cache.is_none());
}

#[test]
fn keyed_snapshot_failure_is_not_retried_on_refresh() {
    let mut state = TasBranchDiffEditorState::<u8>::new();
    state.request_key = Some(key(6));
    let request = state.request_to_start().unwrap();
    state.record_failure(request, "the TAS branch does not exist".to_owned());
    assert_eq!(state.presentation_kind(), TasBranchDiffPresentationKind::Failed);

    assert!(state.request_to_start().is_none());
    assert!(state.in_flight.is_none());
    assert_eq!(state.failure_message().map(String::as_str), Some("the TAS branch does not exist"));
}

#[test]
fn a_current_result_is_shown_and_not_requested_again() {
    let mut state = TasBranchDiffEditorState::<u8>::new();
    assert_eq!(state.presentation_kind(), TasBranchDiffPresentationKind::NoTarget);
    state.request_key = Some(key(7));
    let request = state.request_to_start().unwrap();
    state.record_started(request);
    assert!(state.request_to_start().is_none());

    state.install_worker_result(BranchDiffWorkerResult::Completed(Ok(9)));
    assert_eq!(state.presentation_kind(), TasBranchDiffPresentationKind::Ready);
    assert_eq!(state.cached_diff(), Some(&9));
    assert!(state.request_to_start().is_none());

    state.request_key = Some(key(8));
    assert!(state.cached_diff().is_none());
    assert_eq!(state.request_to_start(), Some(key(8)));
}

#[test]
fn the_target_defaults_to_the_parent_and_follows_the_selected_branch() {
    let mut window = state_with_project(4);
    window.reduce(TasEditorAction::ForkBranch { id: "alt".to_owned(), name: "Alt".to_owned() }).unwrap();
    let session = window.session.as_ref().unwrap();
    assert_eq!(session.selected_branch_id(), "alt");

    let mut state = TasBranchDiffEditorState::<u8>::new();
    state.sync_source_and_target(session);
    assert_eq!(state.source_branch_id.as_deref(), Some("alt"));
    assert_eq!(state.target_branch_id.as_deref(), Some("main"));
    assert_eq!(state.request_key.as_ref().map(|k| k.target_branch_id.as_str()), Some("main"));
    let generation = state.generation;

    state.sync_source_and_target(session);
    assert_eq!(state.generation, generation);

    state.set_target(session, "missing".to_owned());
    assert_eq!(state.generation, generation + 1);
    state.sync_source_and_target(session);
    assert_eq!(state.target_branch_id.as_deref(), Some("main"));

    window.reduce(TasEditorAction::SelectBranch("main".to_owned())).unwrap();
    let session = window.session.as_ref().unwrap();
    state.sync_source_and_target(session);
    assert_eq!(state.source_branch_id.as_deref(), Some("main"));
    assert_eq!(state.target_branch_id.as_deref(), Some("alt"));
}

#[test]
fn diff_jump_refuses_stale_witnesses_and_selects_the_source_boundary() {
    let mut state = state_with_project(10);
    let session = state.session.as_ref().unwrap();
    let project = session.project_content_digest();
    let movie = session.project().branch_movie_digest("main").unwrap();

    let stale_project = TasBranchDiffJumpAction::new(TasDigest(project.0 + 1), "main".to_owned(), movie, 3);
    assert_eq!(state.apply_branch_diff_jump_action(&stale_project), Err(TasEditorError::StaleProject));
    let missing = TasBranchDiffJumpAction::new(project, "other".to_owned(), movie, 3);
    assert_eq!(state.apply_branch_diff_jump_action(&missing), Err(TasEditorError::StaleBranch));
    let stale_movie = TasBranchDiffJumpAction::new(project, "main".to_owned(), TasDigest(movie.0 + 1), 3);
    assert_eq!(state.apply_branch_diff_jump_action(&stale_movie), Err(TasEditorError::StaleBranch));
    let past_end = TasBranchDiffJumpAction::new(project, "main".to_owned(), movie, 11);
    assert_eq!(state.apply_branch_diff_jump_action(&past_end), Err(TasEditorError::StaleBranch));

    let jump = TasBranchDiffJumpAction::new(project, "main".to_owned(), movie, 10);
    assert_eq!(
        state.apply_branch_diff_jump_action(&jump),
        Ok("Selected diff source branch main at cursor 10".to_owned())
    );
    assert_eq!(state.session.as_ref().unwrap().cursor(), 10);
}

fn add_branch(state: &mut TasEditorWindowState, id: &str, name: &str) {
    state.reduce(TasEditorAction::ForkBranch { id: id.to_owned(), name: name.to_owned() }).unwrap();
}

fn jump_to(state: &TasEditorWindowState, cursor: u64) -> TasBranchDiffJumpAction {
    let session = state.session.as_ref().unwrap();
    TasBranchDiffJumpAction::new(
        session.project_content_digest(),
        session.selected_branch_id().to_owned(),
        session.project().branch_movie_digest(session.selected_branch_id()).unwrap(),
        cursor,
    )
}

#[test]
fn branch_diff_target_is_transient_and_defaults_to_the_parent() {
    let mut state = state_with_project(4);
    state.reduce(TasEditorAction::SelectCursor(2)).unwrap();
    add_branch(&mut state, "child", "Child");
    let session = state.session.as_ref().unwrap();
    let project_before = session.project().clone_project();
    let dirty_before = session.is_dirty();
    let cursor_before = session.cursor();
    let mut diff = TasBranchDiffEditorState::<u8>::new();
    diff.sync_source_and_target(session);
    assert_eq!(diff.target_branch_id.as_deref(), Some("main"));
    assert_eq!(session.project().clone_project(), project_before);
    assert_eq!(session.is_dirty(), dirty_before);
    assert_eq!(session.cursor(), cursor_before);
    assert!(state.execution_preview.is_none());
}

#[test]
fn jump_selects_and_reveals_a_distant_source_hunk_without_editing_the_project() {
    const HUNK_FRAME: u64 = 200_000;

    let mut state = state_with_project(HUNK_FRAME + 1);
    add_branch(&mut state, "target", "Target");
    state
        .reduce(TasEditorAction::ToggleDigital { cursor: HUNK_FRAME, player: 0, field: DigitalField::Buttons, mask: 1 })
        .unwrap();
    state.reduce(TasEditorAction::SelectBranch("main".to_owned())).unwrap();
    state.reduce(TasEditorAction::SelectTimelineFrame { frame: 0, extend_selection: false }).unwrap();
    let hunk_start = {
        let project = state.session.as_ref().unwrap().project();
        let source = project.branch("main").unwrap();
        let target = project.branch("target").unwrap();
        (0..=HUNK_FRAME).find(|&frame| source.input_at(frame) != target.input_at(frame)).unwrap()
    };
    assert_eq!(hunk_start, HUNK_FRAME);
    let action = jump_to(&state, hunk_start);
    let session = state.session.as_ref().unwrap();
    let project_before = session.project().clone_project();
    let generation_before = session.project().edit_generation();
    let dirty_before = session.is_dirty();
    let undo_count_before = session.undo_count();
    std::mem::take(&mut state.timeline_follow_selection);

    state.reduce(TasEditorAction::JumpToBranchDiffHunk(action)).unwrap();

    let session = state.session.as_ref().unwrap();
    assert_eq!(session.selected_branch_id(), "main");
    assert_eq!(session.cursor(), HUNK_FRAME);
    assert_eq!(state.timeline_selection.selected_range(session), Some((HUNK_FRAME, HUNK_FRAME + 1)));
    assert_eq!(session.project().clone_project(), project_before);
    assert_eq!(session.project().edit_generation(), generation_before);
    assert_eq!(session.is_dirty(), dirty_before);
    assert_eq!(session.undo_count(), undo_count_before);
    assert_eq!(state.take_pending_host_request(), None);
    assert!(std::mem::take(&mut state.timeline_follow_selection));
    assert!(!state.timeline_follow_selection);
}

#[test]
fn jump_rechecks_its_witness_and_is_the_only_comparison_side_effect() {
    let mut state = state_with_project(4);
    state.reduce(TasEditorAction::SelectCursor(1)).unwrap();
    add_branch(&mut state, "target", "Target");
    state
        .reduce(TasEditorAction::ToggleDigital { cursor: 1, player: 0, field: DigitalField::Buttons, mask: 1 })
        .unwrap();
    state.reduce(TasEditorAction::SelectBranch("main".to_owned())).unwrap();
    let action = jump_to(&state, 1);
    let source_movie = action.source_movie_digest;
    let copy_action = TasEditorAction::InputClipboard(
        TasInputClipboardAction::copy_constant(
            action.expected_project_digest,
            action.source_branch_id.clone(),
            source_movie,
            1,
            1,
            TasInputFrame::default(),
        )
        .unwrap(),
    );
    let before = state.session.as_ref().unwrap().project().clone_project();
    state.reduce(TasEditorAction::JumpToBranchDiffHunk(action.clone())).unwrap();
    assert_eq!(state.session.as_ref().unwrap().selected_branch_id(), "main");
    assert_eq!(state.session.as_ref().unwrap().cursor(), action.cursor());
    assert_eq!(state.session.as_ref().unwrap().project().clone_project(), before);

    state.reduce(TasEditorAction::SelectBranch("target".to_owned())).unwrap();
    state
        .reduce(TasEditorAction::ToggleDigital { cursor: 0, player: 0, field: DigitalField::Dpad, mask: 1 })
        .unwrap();
    assert_eq!(state.session.as_ref().unwrap().project().branch_movie_digest("main").unwrap(), source_movie);
    state.reduce(TasEditorAction::SelectBranch("main".to_owned())).unwrap();
    state.reduce(TasEditorAction::SelectTimelineFrame { frame: 0, extend_selection: false }).unwrap();
    std::mem::take(&mut state.timeline_follow_selection);
    let before_stale = state.session.as_ref().unwrap().project().clone_project();
    let jump_error = state.reduce(TasEditorAction::JumpToBranchDiffHunk(action)).unwrap_err();
    assert!(jump_error.message().contains("project changed"));
    assert_eq!(state.session.as_ref().unwrap().cursor(), 0);
    assert_eq!(state.timeline_selection.selected_range(state.session.as_ref().unwrap()), Some((0, 1)));
    assert_eq!(state.session.as_ref().unwrap().project().clone_project(), before_stale);
    assert!(!state.timeline_follow_selection);
    let copy_error = state.reduce(copy_action).unwrap_err();
    assert!(copy_error.message().contains("project changed"));
    assert_eq!(state.session.as_ref().unwrap().project().clone_project(), before_stale);
    assert_eq!(
        state.session.as_ref().unwrap().project().branch("target").unwrap().input_at(0).players[0].dpad,
        1
    );
}
