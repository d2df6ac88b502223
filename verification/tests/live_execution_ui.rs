use tas_editor::limits::MAX_PROJECT_FRAMES;
use tas_editor::live::{
    branch_name_or_id, can_record_current_input, primary_transport_actions,
    recording_target_has_future, review_jump_target, selected_input_target, transport_request,
    TasEditorLiveAction, TasEditorLiveStatus, TasPrimaryTransportAction,
};

#[test]
fn live_status_uses_user_facing_session_labels() {
    assert_eq!(
        TasEditorLiveStatus::Ready { recording_available: true }.primary_label(),
        "Ready to connect"
    );
    assert_eq!(
        TasEditorLiveStatus::ReloadRequired("sample rate".to_owned()).primary_label(),
        "Reload required"
    );
    assert_eq!(
        TasEditorLiveStatus::Linked { cursor: 42, recording_available: true }.primary_label(),
        "Connected · paused before input frame 42"
    );
    assert_eq!(TasEditorLiveStatus::Recording.primary_label(), "Recording");
}

#[test]
fn live_status_staging_and_playing_labels_show_progress() {
    assert_eq!(
        TasEditorLiveStatus::Staging { completed: 3, total: 10 }.primary_label(),
        "Connecting… 3/10 frames"
    );
    assert_eq!(
        TasEditorLiveStatus::Playing { cursor: 7, pause_pending: false }.primary_label(),
        "▶ Playing from B(7)"
    );
    assert_eq!(
        TasEditorLiveStatus::Playing { cursor: 7, pause_pending: true }.primary_label(),
        "Pausing at the next boundary after B(7)…"
    );
}

#[test]
fn end_cursor_stages_the_complete_existing_movie() {
    assert_eq!(selected_input_target(599, 600), Some(599));
    assert_eq!(selected_input_target(600, 600), Some(600));
    assert_eq!(selected_input_target(601, 600), None);
    assert_eq!(selected_input_target(0, 0), Some(0));
}

#[test]
fn live_recording_uses_the_project_frame_limit() {
    assert!(can_record_current_input(599, 600));
    assert!(can_record_current_input(MAX_PROJECT_FRAMES - 2, MAX_PROJECT_FRAMES - 1));
    assert!(!can_record_current_input(MAX_PROJECT_FRAMES - 1, MAX_PROJECT_FRAMES));
    assert!(can_record_current_input(600, 600));
}

#[test]
fn recording_mode_choice_only_applies_before_existing_future_input() {
    assert!(recording_target_has_future(Some(1), 12));
    assert!(!recording_target_has_future(Some(12), 12));
    assert!(!recording_target_has_future(None, 12));
}

#[test]
fn review_jumps_clamp_to_the_movie_boundaries() {
    assert_eq!(review_jump_target(30, -60, 120), 0);
    assert_eq!(review_jump_target(30, 60, 120), 90);
    assert_eq!(review_jump_target(100, 300, 120), 120);
}

#[test]
fn review_jumps_saturate_at_the_integer_limits() {
    assert_eq!(review_jump_target(0, i64::MIN, 120), 0);
    assert_eq!(review_jump_target(u64::MAX, i64::MAX, u64::MAX), u64::MAX);
}

#[test]
fn blank_branch_name_uses_the_required_id() {
    assert_eq!(branch_name_or_id(" route-b ", ""), "route-b");
    assert_eq!(branch_name_or_id("route-b", " Boss route "), "Boss route");
}

#[test]
fn primary_transport_actions_match_the_available_live_session_actions() {
    assert_eq!(
        primary_transport_actions(&TasEditorLiveStatus::Ready { recording_available: true }, 4, 8),
        vec![TasPrimaryTransportAction::Connect, TasPrimaryTransportAction::Record]
    );
    assert_eq!(
        primary_transport_actions(
            &TasEditorLiveStatus::Linked { cursor: 3, recording_available: true },
            4,
            8,
        ),
        vec![TasPrimaryTransportAction::Play, TasPrimaryTransportAction::GoToSelection]
    );
    assert_eq!(
        primary_transport_actions(
            &TasEditorLiveStatus::Linked { cursor: 4, recording_available: true },
            4,
            8,
        ),
        vec![
            TasPrimaryTransportAction::Play,
            TasPrimaryTransportAction::Record,
            TasPrimaryTransportAction::FrameAdvance
        ]
    );
    assert_eq!(
        primary_transport_actions(&TasEditorLiveStatus::Recording, 4, 8),
        vec![TasPrimaryTransportAction::Stop]
    );
    assert_eq!(
        primary_transport_actions(
            &TasEditorLiveStatus::Playing { cursor: 4, pause_pending: false },
            4,
            8,
        ),
        vec![TasPrimaryTransportAction::Pause]
    );
}

#[test]
fn transport_buttons_send_the_matching_host_requests() {
    let ready = TasEditorLiveStatus::Ready { recording_available: true };
    let linked = TasEditorLiveStatus::Linked { cursor: 2, recording_available: true };
    assert_eq!(transport_request(&ready, TasPrimaryTransportAction::Connect), Some(TasEditorLiveAction::StageSelectedInput));
    assert_eq!(transport_request(&ready, TasPrimaryTransportAction::Record), Some(TasEditorLiveAction::RecordFromSelectedInput));
    assert_eq!(transport_request(&linked, TasPrimaryTransportAction::Record), Some(TasEditorLiveAction::StartRealtimeRecording));
    assert_eq!(transport_request(&TasEditorLiveStatus::Recording, TasPrimaryTransportAction::Record), None);
    assert_eq!(transport_request(&linked, TasPrimaryTransportAction::Play), Some(TasEditorLiveAction::StartPlayback));
    assert_eq!(transport_request(&linked, TasPrimaryTransportAction::Pause), Some(TasEditorLiveAction::PausePlayback));
    assert_eq!(transport_request(&linked, TasPrimaryTransportAction::GoToSelection), Some(TasEditorLiveAction::GoToSelection));
    assert_eq!(
        transport_request(&linked, TasPrimaryTransportAction::FrameAdvance),
        Some(TasEditorLiveAction::RecordCurrentInputAndAdvance)
    );
    assert_eq!(transport_request(&TasEditorLiveStatus::Recording, TasPrimaryTransportAction::Stop), Some(TasEditorLiveAction::StopRealtimeRecording));
}
