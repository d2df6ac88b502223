use tas_editor::editor::{
    TasEditorAction, TasEditorExecutionAvailability, TasEditorPresentation, TasEditorWindowState,
};
use tas_editor::editor_events::{TasEventAction, TasEventMutation};
use tas_editor::editor_live::{TasEditorExecutionAttachment, TasEditorExecutionOutcome};
use tas_editor::identity::{TasDeviceIdentity, TasProjectIdentity};
use tas_editor::input::{TasDigest, TasInputFrame};
use tas_editor::input_columns::{applicable_player_count, digital_columns, player_number, shows_raw_input, DigitalField};
use tas_editor::limits::MAX_EDITOR_SEEK_EXECUTION_FRAMES;
use tas_editor::live::{
    can_stage_selected_input, selected_input_target, TasEditorFileRequest, TasEditorHostRequest, TasEditorLiveAction,
    TasEditorLiveStatus,
};
use tas_editor::metadata::{TasMetadataAction, TasMetadataMutation};
use tas_editor::project::{TasMarker, TasProject};
use tas_editor::session::TasEditorSessionSource;

fn project(frame_count: u64) -> TasProject {
    TasProject::new(
        "ui-project",
        TasProjectIdentity {
            system: "pce".to_owned(),
            devices: (1..=5)
                .map(|player| TasDeviceIdentity {
                    port: format!("p{player}"),
                    device: "gamepad".to_owned(),
                })
                .collect(),
            firmware: Vec::new(),
            effective_media_digest: TasDigest(2),
        },
        "main",
        "Main",
        frame_count,
    )
}

fn state_with_project(frame_count: u64) -> TasEditorWindowState {
    let mut state = TasEditorWindowState::new();
    state.open_project(project(frame_count), "movie.ztas").unwrap();
    state
}

#[test]
fn editor_presentation_switches_between_embedded_and_separate_hosts() {
    let mut state = TasEditorWindowState::new();
    assert!(!state.open);
    assert_eq!(state.presentation(), TasEditorPresentation::Embedded);
    state.open_separate_window();
    assert!(state.open);
    assert_eq!(state.presentation(), TasEditorPresentation::SeparateWindow);
    state.open_embedded();
    assert!(state.open);
    assert_eq!(state.presentation(), TasEditorPresentation::Embedded);
    state.close();
    assert!(!state.open);
}

#[test]
fn verified_export_busy_blocks_editor_reducers() {
    let mut state = TasEditorWindowState::new();
    state.set_verified_export_busy(true);
    assert!(state.reduce(TasEditorAction::SelectCursor(0)).is_err());
}

#[test]
fn live_staging_accepts_selected_rows_and_the_end_cursor() {
    assert_eq!(selected_input_target(0, 1), Some(0));
    assert_eq!(selected_input_target(4, 4), Some(4));
    assert_eq!(selected_input_target(5, 4), None);
    assert!(can_stage_selected_input(0, 1));
    assert!(can_stage_selected_input(4, 4));
    assert!(!can_stage_selected_input(5, 4));
    assert_eq!(
        selected_input_target(
            MAX_EDITOR_SEEK_EXECUTION_FRAMES - 1,
            MAX_EDITOR_SEEK_EXECUTION_FRAMES,
        ),
        Some(MAX_EDITOR_SEEK_EXECUTION_FRAMES - 1)
    );
    assert!(can_stage_selected_input(
        MAX_EDITOR_SEEK_EXECUTION_FRAMES - 1,
        MAX_EDITOR_SEEK_EXECUTION_FRAMES,
    ));
    assert_eq!(
        selected_input_target(
            MAX_EDITOR_SEEK_EXECUTION_FRAMES,
            MAX_EDITOR_SEEK_EXECUTION_FRAMES + 1,
        ),
        Some(MAX_EDITOR_SEEK_EXECUTION_FRAMES)
    );
    assert!(can_stage_selected_input(
        MAX_EDITOR_SEEK_EXECUTION_FRAMES,
        MAX_EDITOR_SEEK_EXECUTION_FRAMES + 1,
    ));
    assert!(!can_stage_selected_input(u64::MAX, u64::MAX));
}

#[test]
fn live_authority_rejects_keyboard_history_and_cursor_mutations() {
    let mut state = state_with_project(2);
    state
        .reduce(TasEditorAction::InsertNeutralFrames { cursor: 0, count: 1 })
        .unwrap();
    state.reduce(TasEditorAction::Undo).unwrap();
    assert!(state.session.as_ref().unwrap().can_redo());

    state.set_live_status(TasEditorLiveStatus::Staging { completed: 0, total: 1 });
    assert!(state.reduce(TasEditorAction::Redo).is_err());
    assert!(state.reduce(TasEditorAction::SelectCursor(1)).is_err());
    assert_eq!(state.session.as_ref().unwrap().cursor(), 0);
    assert_eq!(
        state.session.as_ref().unwrap().selected_branch().frame_count(),
        2
    );
}

#[test]
fn linked_selection_stays_put_but_input_edit_requests_one_reconstruction() {
    let mut state = state_with_project(2);
    state.set_live_status(TasEditorLiveStatus::Linked { cursor: 1, recording_available: true });

    state.reduce(TasEditorAction::SelectCursor(1)).unwrap();
    assert_eq!(state.take_pending_host_request(), None);
    state
        .reduce(TasEditorAction::ToggleDigital {
            cursor: 1,
            player: 0,
            field: DigitalField::Buttons,
            mask: 1,
        })
        .unwrap();
    assert_eq!(
        state.take_pending_host_request(),
        Some(TasEditorHostRequest::Live(
            TasEditorLiveAction::ReconstructAfterEdit { start: 1, end: 2 }
        ))
    );
}

#[test]
fn live_control_branch_fork_requires_and_selects_the_linked_boundary() {
    let mut state = state_with_project(2);
    state.reduce(TasEditorAction::SelectCursor(1)).unwrap();
    state.set_live_status(TasEditorLiveStatus::Linked { cursor: 1, recording_available: true });

    state
        .fork_branch_at_linked_boundary_for_live_control(
            1,
            "alternate".to_owned(),
            "Alternate".to_owned(),
        )
        .unwrap();
    assert_eq!(
        state.session.as_ref().unwrap().selected_branch_id(),
        "alternate"
    );
    assert_eq!(state.session.as_ref().unwrap().cursor(), 1);

    state.reduce(TasEditorAction::SelectCursor(0)).unwrap();
    assert!(state
        .fork_branch_at_linked_boundary_for_live_control(
            1,
            "wrong-boundary".to_owned(),
            "Wrong boundary".to_owned(),
        )
        .is_err());
}

#[test]
fn replacement_request_waits_for_editor_confirmation() {
    let mut state = TasEditorWindowState::new();
    let path = "movie.ztas".to_owned();

    state.request_project_replacement_with_game_gear_no_save(path.clone(), false);

    assert_eq!(state.pending_project_replacement, Some((path, false)));
    assert_eq!(state.take_pending_host_request(), None);
}

#[test]
fn digital_toggle_is_a_fixed_length_transaction_for_the_selected_player() {
    let mut state = state_with_project(4);
    state.attach_execution(TasEditorExecutionAttachment::Unavailable(
        "no running emulator".to_owned(),
    ));

    state
        .reduce(TasEditorAction::ToggleDigital {
            cursor: 2,
            player: 4,
            field: DigitalField::Buttons,
            mask: 1 << 7,
        })
        .unwrap();

    let session = state.session.as_ref().unwrap();
    assert_eq!(session.selected_branch().frame_count(), 4);
    assert_eq!(session.selected_branch().input_at(2).players[4].buttons, 0x80);
    assert_eq!(session.selected_branch().input_at(1), TasInputFrame::default());
    assert_eq!(session.selected_branch().input_at(3), TasInputFrame::default());
    assert!(session.is_dirty());
}

#[test]
fn insert_delete_and_fork_actions_preserve_controller_invariants() {
    let mut state = state_with_project(3);
    state.reduce(TasEditorAction::SelectCursor(2)).unwrap();
    state
        .reduce(TasEditorAction::InsertNeutralFrames { cursor: 2, count: 1 })
        .unwrap();
    assert_eq!(
        state.session.as_ref().unwrap().selected_branch().frame_count(),
        4
    );

    state
        .reduce(TasEditorAction::ForkBranch {
            id: "route-b".to_owned(),
            name: "Route B".to_owned(),
        })
        .unwrap();
    let session = state.session.as_ref().unwrap();
    assert_eq!(session.selected_branch_id(), "route-b");
    assert_eq!(session.cursor(), 2);
    assert_eq!(session.project().branches().len(), 2);

    state
        .reduce(TasEditorAction::DeleteFrames { start: 2, count: 1 })
        .unwrap();
    let session = state.session.as_ref().unwrap();
    assert_eq!(session.selected_branch().frame_count(), 3);
    assert_eq!(session.cursor(), 2);
    assert_eq!(session.selected_branch().parent().unwrap().fork_cursor, 2);
}

#[test]
fn frame_recording_grows_the_movie_without_prefilling_neutral_rows() {
    let mut state = state_with_project(2);
    state.reduce(TasEditorAction::StartRecordingAtEnd).unwrap();

    let session = state.session.as_ref().unwrap();
    assert_eq!(session.selected_branch().frame_count(), 3);
    assert_eq!(session.cursor(), 2);
    assert!(session.selected_branch().input_spans().is_empty());

    state
        .reduce(TasEditorAction::ToggleDigital {
            cursor: 2,
            player: 0,
            field: DigitalField::Buttons,
            mask: 1,
        })
        .unwrap();
    state.reduce(TasEditorAction::CaptureRecordingFrame).unwrap();

    let session = state.session.as_ref().unwrap();
    assert_eq!(session.selected_branch().frame_count(), 4);
    assert_eq!(session.cursor(), 3);
    assert_eq!(session.selected_branch().input_at(2).players[0].buttons, 1);
    assert_eq!(session.selected_branch().input_at(3), TasInputFrame::default());

    state.reduce(TasEditorAction::CaptureRecordingFrame).unwrap();
    let session = state.session.as_ref().unwrap();
    assert_eq!(session.selected_branch().frame_count(), 5);
    assert_eq!(session.cursor(), 4);
    assert_eq!(session.selected_branch().input_spans().len(), 1);

    state.reduce(TasEditorAction::StopRecording).unwrap();
    assert!(state.recording.is_none());
    assert_eq!(
        state.session.as_ref().unwrap().selected_branch().frame_count(),
        4
    );
}

#[test]
fn bulk_neutral_insertion_is_sparse_and_selects_the_first_new_row() {
    let mut state = state_with_project(2);
    state.reduce(TasEditorAction::SelectCursor(2)).unwrap();
    state
        .reduce(TasEditorAction::InsertNeutralFrames { cursor: 2, count: 600 })
        .unwrap();

    let session = state.session.as_ref().unwrap();
    assert_eq!(session.selected_branch().frame_count(), 602);
    assert_eq!(session.cursor(), 2);
    assert!(session.selected_branch().input_spans().is_empty());
}

#[test]
fn leaving_the_active_recording_row_stops_recording() {
    let mut state = state_with_project(2);
    let before = state.session.as_ref().unwrap().project().clone_project();
    state.reduce(TasEditorAction::StartRecordingAtEnd).unwrap();
    assert!(state.recording.is_some());

    state.reduce(TasEditorAction::SelectCursor(0)).unwrap();
    assert!(state.recording.is_none());
    assert_eq!(
        state.session.as_ref().unwrap().selected_branch().frame_count(),
        2
    );
    assert_eq!(*state.session.as_ref().unwrap().project(), before);
    assert!(!state.session.as_ref().unwrap().is_dirty());
}

#[test]
fn playback_exit_discards_the_unaccepted_recording_row() {
    let mut state = state_with_project(2);
    state.reduce(TasEditorAction::StartRecordingAtEnd).unwrap();
    assert!(state.reduce(TasEditorAction::ExecuteSeek(3)).is_err());

    let session = state.session.as_ref().unwrap();
    assert!(state.recording.is_none());
    assert_eq!(session.selected_branch().frame_count(), 2);
    assert_eq!(session.cursor(), 0);
}

#[test]
fn save_and_history_actions_require_recording_to_stop_first() {
    let mut state = state_with_project(2);
    state.reduce(TasEditorAction::StartRecordingAtEnd).unwrap();

    assert!(state.reduce(TasEditorAction::SaveManual).is_err());
    assert!(state.reduce(TasEditorAction::Undo).is_err());
    assert!(state.recording.is_some());
    assert_eq!(
        state.session.as_ref().unwrap().selected_branch().frame_count(),
        3
    );
}

#[test]
fn player_and_column_models_are_bounded_and_system_specific() {
    let state = state_with_project(1);
    let session = state.session.as_ref().unwrap();

    assert_eq!(applicable_player_count(session.project().identity()), 5);
    assert_eq!(digital_columns("nes").len(), 8);
    assert_eq!(digital_columns("gba").len(), 10);
    assert_eq!(digital_columns("pce").len(), 12);
    assert!(digital_columns("pce")
        .iter()
        .all(|column| column.mask.count_ones() == 1));
    assert_eq!(player_number("p5"), Some(5));
    assert_eq!(player_number("p6"), None);
    assert_eq!(player_number("controller1"), None);
}

#[test]
fn digital_labels_match_known_backends_and_stay_raw_when_ambiguous() {
    let pce_buttons = digital_columns("pce")
        .into_iter()
        .filter(|column| column.field == DigitalField::Buttons)
        .map(|column| (column.label, column.mask))
        .collect::<Vec<_>>();
    assert_eq!(
        pce_buttons,
        vec![
            ("I", 1),
            ("II", 2),
            ("Sel", 4),
            ("Run", 8),
            ("III", 16),
            ("IV", 32),
            ("V", 64),
            ("VI", 128),
        ]
    );

    for system in ["coleco", "unknown"] {
        let columns = digital_columns(system);
        assert_eq!(columns.len(), 16);
        assert_eq!(columns[0].label, "D0");
        assert_eq!(columns[7].label, "D7");
        assert_eq!(columns[8].label, "B0");
        assert_eq!(columns[15].label, "B7");
    }
}

#[test]
fn failed_actions_leave_the_session_unchanged() {
    let mut state = state_with_project(1);
    let before = state.session.as_ref().unwrap().project().clone_project();

    assert!(state
        .reduce(TasEditorAction::ToggleDigital {
            cursor: 1,
            player: 0,
            field: DigitalField::Buttons,
            mask: 1,
        })
        .is_err());
    assert!(state
        .reduce(TasEditorAction::ForkBranch {
            id: "bad id".to_owned(),
            name: "Bad".to_owned(),
        })
        .is_err());

    let session = state.session.as_ref().unwrap();
    assert_eq!(*session.project(), before);
    assert_eq!(session.selected_branch_id(), "main");
    assert_eq!(session.cursor(), 0);
}

#[test]
fn undo_and_redo_actions_restore_exact_ui_session_snapshots() {
    let mut state = state_with_project(2);
    state.reduce(TasEditorAction::SelectCursor(1)).unwrap();
    state
        .reduce(TasEditorAction::ToggleDigital {
            cursor: 1,
            player: 0,
            field: DigitalField::Dpad,
            mask: 1 << 2,
        })
        .unwrap();
    assert!(state.session.as_ref().unwrap().can_undo());

    state.reduce(TasEditorAction::Undo).unwrap();
    let session = state.session.as_ref().unwrap();
    assert_eq!(session.cursor(), 1);
    assert_eq!(session.selected_branch().input_at(1), TasInputFrame::default());
    assert!(session.can_redo());

    state.reduce(TasEditorAction::Redo).unwrap();
    let session = state.session.as_ref().unwrap();
    assert_eq!(session.cursor(), 1);
    assert_eq!(session.selected_branch().input_at(1).players[0].dpad, 1 << 2);
}

#[test]
fn selection_changes_request_one_timeline_recenter() {
    let mut state = state_with_project(8);
    std::mem::take(&mut state.timeline_follow_selection);

    state.reduce(TasEditorAction::SelectCursor(6)).unwrap();

    assert_eq!(state.session.as_ref().unwrap().cursor(), 6);
    assert!(state.timeline_follow_selection);
    assert!(std::mem::take(&mut state.timeline_follow_selection));
    assert!(!state.timeline_follow_selection);
}

#[test]
fn show_game_position_reselects_the_linked_boundary_without_moving_the_game() {
    let mut state = state_with_project(8);
    state.set_live_status(TasEditorLiveStatus::Linked { cursor: 6, recording_available: true });
    state
        .reduce(TasEditorAction::SelectTimelineRange { anchor: 1, active: 3 })
        .unwrap();
    let before = state.session.as_ref().unwrap().project().clone_project();
    let undo_count = state.session.as_ref().unwrap().undo_count();
    std::mem::take(&mut state.timeline_follow_selection);

    state.reduce(TasEditorAction::SelectLiveExecutionBoundary).unwrap();

    assert_eq!(state.session.as_ref().unwrap().cursor(), 6);
    assert_eq!(
        state
            .timeline_selection
            .selected_range(state.session.as_ref().unwrap()),
        Some((6, 7))
    );
    assert_eq!(*state.session.as_ref().unwrap().project(), before);
    assert_eq!(state.session.as_ref().unwrap().undo_count(), undo_count);
    assert_eq!(state.live_status.execution_boundary(), Some(6));
    assert_eq!(state.take_pending_host_request(), None);
    assert!(state.timeline_follow_selection);
}

#[test]
fn execution_availability_starts_unavailable_without_a_game() {
    let state = TasEditorWindowState::new();
    assert!(matches!(
        state.execution_availability,
        TasEditorExecutionAvailability::Unavailable(_)
    ));
}

#[test]
fn advanced_edits_require_recording_to_stop_first() {
    let mut state = state_with_project(2);
    state.reduce(TasEditorAction::StartRecordingAtEnd).unwrap();
    let session = state.session.as_ref().unwrap();
    let before = session.project().clone_project();
    let expected = session.project_content_digest();

    let result = state.reduce(TasEditorAction::Metadata(TasMetadataAction::new(
        expected,
        TasMetadataMutation::UpsertMarker {
            original_id: None,
            marker: TasMarker {
                id: "recording-marker".to_owned(),
                branch_id: "main".to_owned(),
                cursor: 0,
                name: "Recording marker".to_owned(),
            },
        },
    )));

    assert!(result.is_err());
    assert!(state.recording.is_some());
    assert!(state.session.as_ref().unwrap().project().clone_project() == before);
}

#[test]
fn renaming_the_active_branch_is_transactional_and_undoable() {
    let mut state = state_with_project(2);
    let before = state.session.as_ref().unwrap().project().clone_project();

    state.reduce(TasEditorAction::RenameActiveBranch { name: "  Any% route  ".to_owned() }).unwrap();
    let session = state.session.as_ref().unwrap();
    assert_eq!(session.selected_branch().name(), "Any% route");
    assert!(session.can_undo());
    assert_eq!(state.active_branch_name, "Any% route");

    state.reduce(TasEditorAction::Undo).unwrap();
    assert!(state.session.as_ref().unwrap().project().clone_project() == before);
    assert_eq!(state.active_branch_name, "Main");

    state.reduce(TasEditorAction::Redo).unwrap();
    assert_eq!(state.session.as_ref().unwrap().selected_branch().name(), "Any% route");
    assert_eq!(state.active_branch_name, "Any% route");
}

#[test]
fn rejected_active_branch_rename_leaves_the_project_and_history_unchanged() {
    let mut state = state_with_project(2);
    let before = state.session.as_ref().unwrap().project().clone_project();
    let undo_count = state.session.as_ref().unwrap().undo_count();

    assert!(state.reduce(TasEditorAction::RenameActiveBranch { name: " \t ".to_owned() }).is_err());

    let session = state.session.as_ref().unwrap();
    assert!(session.project().clone_project() == before);
    assert_eq!(session.undo_count(), undo_count);
}

#[test]
fn persistence_actions_keep_manual_and_autosave_witnesses_separate() {
    let mut state = state_with_project(2);
    state
        .reduce(TasEditorAction::ToggleDigital { cursor: 0, player: 0, field: DigitalField::Buttons, mask: 1 })
        .unwrap();
    state.reduce(TasEditorAction::Autosave).unwrap();
    let autosaved_generation = state.session.as_ref().unwrap().last_autosaved_generation();

    state
        .reduce(TasEditorAction::ToggleDigital { cursor: 0, player: 0, field: DigitalField::Dpad, mask: 1 << 1 })
        .unwrap();
    assert!(state.session.as_ref().unwrap().is_dirty());
    state.reduce(TasEditorAction::RecoverAutosave).unwrap();

    let recovered = state.session.as_ref().unwrap();
    assert_eq!(recovered.source(), TasEditorSessionSource::Autosave);
    assert_eq!(recovered.project().edit_generation(), autosaved_generation.unwrap());
    assert_eq!(recovered.selected_branch().input_at(0).players[0].buttons, 1);
    assert_eq!(recovered.selected_branch().input_at(0).players[0].dpad, 0);
    assert!(recovered.is_dirty());

    state.reduce(TasEditorAction::SaveManual).unwrap();
    assert!(!state.session.as_ref().unwrap().is_dirty());
}

#[test]
fn periodic_autosave_runs_while_closed_without_duplicate_generations() {
    let mut state = state_with_project(2);
    state.open = false;
    state.tick_periodic_autosave_at(0);
    state.tick_periodic_autosave_at(30_000);

    let session = state.session.as_ref().unwrap();
    assert_eq!(session.last_autosaved_generation(), Some(session.project().edit_generation()));
    let first_message = state.message.clone();

    state.tick_periodic_autosave_at(60_000);
    assert_eq!(state.message, first_message);
}

#[test]
fn deleting_the_frames_just_inserted_gives_back_the_movie() {
    let mut state = state_with_project(4);
    state
        .reduce(TasEditorAction::SetDigital { cursor: 2, player: 0, field: DigitalField::Buttons, mask: 1, pressed: true })
        .unwrap();
    let frames_before: Vec<TasInputFrame> =
        (0..4).map(|frame| state.session.as_ref().unwrap().selected_branch().input_at(frame)).collect();

    state.reduce(TasEditorAction::InsertNeutralFrames { cursor: 1, count: 3 }).unwrap();
    assert_eq!(state.session.as_ref().unwrap().frame_count(), 7);
    assert_eq!(state.session.as_ref().unwrap().selected_branch().input_at(5).players[0].buttons, 1);
    state.reduce(TasEditorAction::DeleteFrames { start: 1, count: 3 }).unwrap();

    let session = state.session.as_ref().unwrap();
    assert_eq!(session.frame_count(), 4);
    let frames_after: Vec<TasInputFrame> = (0..4).map(|frame| session.selected_branch().input_at(frame)).collect();
    assert_eq!(frames_after, frames_before);
}

#[test]
fn discarding_a_recording_draft_restores_the_project_and_history() {
    let mut state = state_with_project(2);
    state.reduce(TasEditorAction::InsertNeutralFrames { cursor: 0, count: 1 }).unwrap();
    let before = state.session.as_ref().unwrap().project().clone_project();
    let undo_count = state.session.as_ref().unwrap().undo_count();

    state.reduce(TasEditorAction::StartRecordingAtEnd).unwrap();
    assert_eq!(state.session.as_ref().unwrap().frame_count(), 4);
    assert!(state.discard_recording_draft());

    let session = state.session.as_ref().unwrap();
    assert!(session.project().clone_project() == before);
    assert_eq!(session.undo_count(), undo_count);
    assert!(state.recording.is_none());
}

#[test]
fn recovering_gives_back_the_autosaved_project_after_later_edits() {
    let mut state = state_with_project(2);
    state.reduce(TasEditorAction::InsertNeutralFrames { cursor: 0, count: 2 }).unwrap();
    state.reduce(TasEditorAction::Autosave).unwrap();
    let autosaved = state.session.as_ref().unwrap().project().clone_project();
    state.reduce(TasEditorAction::DeleteFrames { start: 0, count: 3 }).unwrap();
    assert_eq!(state.session.as_ref().unwrap().frame_count(), 1);

    state.reduce(TasEditorAction::RecoverAutosave).unwrap();

    assert!(state.session.as_ref().unwrap().project().clone_project() == autosaved);
    assert_eq!(state.session.as_ref().unwrap().frame_count(), 4);
}

#[test]
fn history_shortcuts_follow_what_can_be_undone_and_the_locks() {
    let mut state = state_with_project(2);
    assert_eq!(state.shortcut_history_action(true, false), None);
    state.reduce(TasEditorAction::InsertNeutralFrames { cursor: 0, count: 1 }).unwrap();
    assert_eq!(state.shortcut_history_action(true, true), Some(TasEditorAction::Undo));
    assert_eq!(state.shortcut_history_action(false, true), None);
    state.reduce(TasEditorAction::Undo).unwrap();
    assert_eq!(state.shortcut_history_action(false, true), Some(TasEditorAction::Redo));
    assert!(!state.file_actions_locked());
    state.set_verified_export_busy(true);
    assert!(state.file_actions_locked());
    assert!(state.editor_locked());
    assert_eq!(state.shortcut_history_action(false, true), None);
}

fn executable_state(frame_count: u64) -> TasEditorWindowState {
    let mut state = state_with_project(frame_count);
    state.attach_execution(TasEditorExecutionAttachment::Available);
    state
}

fn seek_and_present(state: &mut TasEditorWindowState, target: u64) {
    state.reduce(TasEditorAction::ExecuteSeek(target)).unwrap();
    state
        .install_execution_outcome(&TasEditorExecutionOutcome {
            cursor: target,
            requested_cursor: target,
            executed_frames: target,
            cache_store_error: None,
        })
        .unwrap();
}

#[test]
fn selection_and_movie_edits_clear_a_private_preview_instead_of_showing_it_stale() {
    let mut state = executable_state(2);
    seek_and_present(&mut state, 1);
    assert!(state.execution_preview.is_some());

    state.reduce(TasEditorAction::SelectCursor(0)).unwrap();
    assert!(state.execution_preview.is_none());

    seek_and_present(&mut state, 1);
    state
        .reduce(TasEditorAction::ToggleDigital { cursor: 0, player: 0, field: DigitalField::Buttons, mask: 1 })
        .unwrap();
    assert!(state.execution_preview.is_none());
}

#[test]
fn failed_and_stale_actions_preserve_the_exact_private_preview() {
    let mut state = executable_state(2);
    seek_and_present(&mut state, 1);
    let before_preview = state.execution_preview;
    let before_project = state.session.as_ref().unwrap().project().clone_project();

    let unsupported_add = TasEditorAction::Event(TasEventAction::new(
        state.session.as_ref().unwrap().project_content_digest(),
        TasEventMutation::Add { branch_id: "main".to_owned(), frame: 1, side: 0 },
    ));
    assert!(state.reduce(unsupported_add).is_err());
    assert_eq!(state.execution_preview, before_preview);
    assert_eq!(state.session.as_ref().unwrap().project().clone_project(), before_project);

    let stale = TasEventAction::new(
        state.session.as_ref().unwrap().project_content_digest(),
        TasEventMutation::Add { branch_id: "main".to_owned(), frame: 1, side: 0 },
    );
    state
        .reduce(TasEditorAction::ToggleDigital { cursor: 0, player: 0, field: DigitalField::Buttons, mask: 1 })
        .unwrap();
    seek_and_present(&mut state, 1);
    let current_preview = state.execution_preview;
    let current_project = state.session.as_ref().unwrap().project().clone_project();
    assert!(state.reduce(TasEditorAction::Event(stale)).is_err());
    assert_eq!(state.execution_preview, current_preview);
    assert_eq!(state.session.as_ref().unwrap().project().clone_project(), current_project);
}

#[test]
fn marked_range_controls_disable_add_without_a_timeline_selection() {
    let mut state = state_with_project(4);
    state.reduce(TasEditorAction::SelectCursor(4)).unwrap();
    let session = state.session.as_ref().unwrap();
    assert!(state.timeline_selection.snapshot(session).is_none());
    assert_eq!(state.marked_ranges.snapshot(session).unwrap().ranges.len(), 0);
}

#[test]
fn cancelling_autosave_recovery_clears_only_the_confirmation() {
    let mut state = state_with_project(4);
    state.pending_autosave_recovery = true;
    let before = state.session.as_ref().unwrap().project().clone_project();
    assert_eq!(state.reduce(TasEditorAction::CancelAutosaveRecovery), Ok(None));
    assert!(!state.pending_autosave_recovery);
    assert_eq!(state.session.as_ref().unwrap().project().clone_project(), before);
}

#[test]
fn metadata_forms_restart_as_a_one_row_note_at_the_cursor() {
    let mut state = state_with_project(4);
    state.reduce(TasEditorAction::SelectCursor(2)).unwrap();
    let session = state.session.as_ref().unwrap();
    state.metadata_editor.sync_context(session);
    assert_eq!(state.metadata_editor.marker.cursor, 2);
    assert!(state.metadata_editor.marker.id.is_empty());
    assert_eq!(state.metadata_editor.annotation.kind, "note");
    assert_eq!(state.metadata_editor.annotation.start, 2);
    assert_eq!(state.metadata_editor.annotation.length, 1);
}

#[test]
fn acquiring_a_live_session_clears_the_link_and_keep_flags() {
    let mut state = state_with_project(4);
    state.set_live_status(TasEditorLiveStatus::Linked { cursor: 0, recording_available: true });
    assert!(state.linked_session_active);
    state.close_keep_after_live_command = true;
    state.set_live_status(TasEditorLiveStatus::Acquiring);
    assert!(!state.linked_session_active);
    assert!(!state.close_keep_after_live_command);
    assert!(state.execution_preview.is_none());
}

#[test]
fn failed_media_reevaluation_clears_the_old_engine_but_keeps_editing() {
    let mut state = executable_state(1);
    assert_eq!(state.execution_availability, TasEditorExecutionAvailability::Ready);
    state.attach_execution(TasEditorExecutionAttachment::Rejected("replacement.nes could not load the project".to_owned()));
    assert_ne!(state.execution_availability, TasEditorExecutionAvailability::Ready);
    assert!(state.session.is_some());
    state.reduce(TasEditorAction::InsertNeutralFrames { cursor: 0, count: 1 }).unwrap();
    assert_eq!(state.session.as_ref().unwrap().selected_branch().frame_count(), 2);
}

#[test]
fn file_requests_wait_for_unsaved_changes_to_be_settled() {
    let mut state = state_with_project(4);
    assert_eq!(state.begin_file_request(TasEditorFileRequest::CloseEditor), Some(TasEditorFileRequest::CloseEditor));
    state.reduce(TasEditorAction::ToggleDigital { cursor: 0, player: 0, field: DigitalField::Buttons, mask: 1 }).unwrap();
    assert!(state.session.as_ref().unwrap().is_dirty());
    assert_eq!(state.begin_file_request(TasEditorFileRequest::CloseEditor), None);
    assert_eq!(state.pending_file_request, Some(TasEditorFileRequest::CloseEditor));
    state.reduce(TasEditorAction::CancelFileRequest).unwrap();
    assert_eq!(state.pending_file_request, None);
    assert_eq!(state.take_pending_host_request(), None);

    assert_eq!(state.begin_file_request(TasEditorFileRequest::CloseEditor), None);
    state.reduce(TasEditorAction::ContinueFileRequest { save: true }).unwrap();
    assert!(!state.session.as_ref().unwrap().is_dirty());
    assert_eq!(state.pending_file_request, None);
    assert_eq!(
        state.take_pending_host_request(),
        Some(TasEditorHostRequest::File(TasEditorFileRequest::CloseEditor))
    );
}

#[test]
fn a_detached_engine_is_named_in_the_edit_message() {
    let mut state = executable_state(2);
    let kept = state.settle_execution_after_edit("Pasted input pattern".to_owned(), Ok(()));
    assert_eq!(kept, "Pasted input pattern");
    assert_eq!(state.execution_availability, TasEditorExecutionAvailability::Ready);
    let detached = state.settle_execution_after_edit("Pasted input pattern".to_owned(), Err("media differs".to_owned()));
    assert_eq!(
        detached,
        "Pasted input pattern; private execution detached because the edited project no longer matches it: media differs"
    );
    assert!(matches!(state.execution_availability, TasEditorExecutionAvailability::Unavailable(_)));
}

#[test]
fn the_game_position_is_offered_only_away_from_the_selected_boundary() {
    let mut state = state_with_project(8);
    assert!(!state.game_position_elsewhere());
    state.set_live_status(TasEditorLiveStatus::Linked { cursor: 6, recording_available: true });
    assert!(state.game_position_elsewhere());
    state.reduce(TasEditorAction::SelectLiveExecutionBoundary).unwrap();
    assert!(!state.game_position_elsewhere());
    assert!(!shows_raw_input("pce"));
    assert!(!shows_raw_input("unknown-system"));
}
