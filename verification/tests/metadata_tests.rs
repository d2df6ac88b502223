use tas_editor::editor::{TasEditorAction, TasEditorError, TasEditorWindowState};
use tas_editor::editor_live::{TasEditorExecutionAttachment, TasEditorExecutionOutcome};
use tas_editor::identity::{TasDeviceIdentity, TasProjectIdentity};
use tas_editor::input::TasDigest;
use tas_editor::metadata::{TasMetadataAction, TasMetadataError, TasMetadataMutation};
use tas_editor::project::{TasAnnotation, TasMarker, TasProject};
use tas_editor::session::TasEditError;

fn project(frame_count: u64) -> TasProject {
    TasProject::new(
        "ui-project",
        TasProjectIdentity {
            system: "pce".to_owned(),
            devices: (1..=5)
                .map(|player| TasDeviceIdentity { port: format!("p{player}"), device: "gamepad".to_owned() })
                .collect(),
            firmware: Vec::new(),
            effective_media_digest: TasDigest(2),
        },
        "main",
        "Main",
        frame_count,
    )
}

fn executable_state(frame_count: u64) -> TasEditorWindowState {
    let mut state = TasEditorWindowState::new();
    state.open_project(project(frame_count), "movie.ztas").unwrap();
    state.attach_execution(TasEditorExecutionAttachment::Available);
    state
}

fn seek_and_present(state: &mut TasEditorWindowState, target: u64) {
    state.reduce(TasEditorAction::ExecuteSeek(target)).unwrap();
    assert_eq!(state.pending_seek, Some(target));
    let outcome = TasEditorExecutionOutcome {
        cursor: target,
        requested_cursor: target,
        executed_frames: target,
        cache_store_error: None,
    };
    state.install_execution_outcome(&outcome).unwrap();
}

fn reduce_metadata(
    state: &mut TasEditorWindowState,
    mutation: TasMetadataMutation,
) -> Result<Option<String>, TasEditorError> {
    let expected = state.session.as_ref().expect("metadata test requires an open session").project_content_digest();
    state.reduce(TasEditorAction::Metadata(TasMetadataAction::new(expected, mutation)))
}

fn project_of(state: &TasEditorWindowState) -> TasProject {
    state.session.as_ref().unwrap().project().clone_project()
}

#[test]
fn marker_add_update_remove_are_undoable_presentation_transactions() {
    let mut state = executable_state(4);
    seek_and_present(&mut state, 1);
    assert!(state.execution_preview.is_some());

    reduce_metadata(
        &mut state,
        TasMetadataMutation::UpsertMarker {
            original_id: None,
            marker: TasMarker {
                id: "setup".to_owned(),
                branch_id: "main".to_owned(),
                cursor: 1,
                name: "Initial setup".to_owned(),
            },
        },
    )
    .unwrap();
    let session = state.session.as_ref().unwrap();
    assert_eq!(session.project().edit_generation(), 1);
    assert_eq!(session.project().rerecord_count(), 0);
    assert_eq!(session.project().markers()[0].id, "setup");
    assert!(session.is_dirty());
    assert!(session.can_undo());
    assert!(state.execution_preview.is_none());

    state.reduce(TasEditorAction::Undo).unwrap();
    assert!(state.session.as_ref().unwrap().project().markers().is_empty());
    state.reduce(TasEditorAction::Redo).unwrap();
    assert_eq!(state.session.as_ref().unwrap().project().markers()[0].id, "setup");

    reduce_metadata(
        &mut state,
        TasMetadataMutation::UpsertMarker {
            original_id: Some("setup".to_owned()),
            marker: TasMarker {
                id: "boss".to_owned(),
                branch_id: "main".to_owned(),
                cursor: 3,
                name: "Boss entry".to_owned(),
            },
        },
    )
    .unwrap();
    assert_eq!(
        state.session.as_ref().unwrap().project().markers(),
        &vec![TasMarker {
            id: "boss".to_owned(),
            branch_id: "main".to_owned(),
            cursor: 3,
            name: "Boss entry".to_owned(),
        }]
    );

    reduce_metadata(
        &mut state,
        TasMetadataMutation::RemoveMarker { branch_id: "main".to_owned(), id: "boss".to_owned() },
    )
    .unwrap();
    assert!(state.session.as_ref().unwrap().project().markers().is_empty());
    state.reduce(TasEditorAction::Undo).unwrap();
    assert_eq!(state.session.as_ref().unwrap().project().markers()[0].id, "boss");
}

#[test]
fn annotation_add_update_remove_preserve_autosave_and_history_witnesses() {
    let mut state = executable_state(4);
    reduce_metadata(
        &mut state,
        TasMetadataMutation::UpsertAnnotation {
            original_id: None,
            annotation: TasAnnotation {
                id: "route".to_owned(),
                branch_id: "main".to_owned(),
                start: 1,
                length: 2,
                kind: "note".to_owned(),
                text: "First route".to_owned(),
            },
        },
    )
    .unwrap();
    state.reduce(TasEditorAction::Autosave).unwrap();
    assert_eq!(state.session.as_ref().unwrap().last_autosaved_generation(), Some(1));

    reduce_metadata(
        &mut state,
        TasMetadataMutation::UpsertAnnotation {
            original_id: Some("route".to_owned()),
            annotation: TasAnnotation {
                id: "lag-window".to_owned(),
                branch_id: "main".to_owned(),
                start: 0,
                length: 1,
                kind: "lag".to_owned(),
                text: "One frame".to_owned(),
            },
        },
    )
    .unwrap();
    let session = state.session.as_ref().unwrap();
    assert_eq!(session.project().edit_generation(), 2);
    assert_eq!(session.project().rerecord_count(), 0);
    assert_eq!(session.project().annotations()[0].id, "lag-window");
    assert_eq!(session.last_autosaved_generation(), Some(1));

    state.reduce(TasEditorAction::Autosave).unwrap();
    assert_eq!(state.session.as_ref().unwrap().last_autosaved_generation(), Some(2));
    reduce_metadata(
        &mut state,
        TasMetadataMutation::RemoveAnnotation { branch_id: "main".to_owned(), id: "lag-window".to_owned() },
    )
    .unwrap();
    assert!(state.session.as_ref().unwrap().project().annotations().is_empty());
    state.reduce(TasEditorAction::Undo).unwrap();
    assert_eq!(state.session.as_ref().unwrap().project().annotations()[0].id, "lag-window");
    state.reduce(TasEditorAction::Redo).unwrap();
    assert!(state.session.as_ref().unwrap().project().annotations().is_empty());
}

#[test]
fn invalid_annotation_rolls_back_without_clearing_the_exact_preview() {
    let mut state = executable_state(4);
    seek_and_present(&mut state, 1);
    let before = project_of(&state);

    let error = reduce_metadata(
        &mut state,
        TasMetadataMutation::UpsertAnnotation {
            original_id: None,
            annotation: TasAnnotation {
                id: "past-end".to_owned(),
                branch_id: "main".to_owned(),
                start: 4,
                length: 1,
                kind: "note".to_owned(),
                text: "invalid".to_owned(),
            },
        },
    )
    .unwrap_err();

    assert_eq!(error, TasEditorError::Edit(TasEditError::InvalidAnnotation));
    assert!(error.message().contains("annotation is invalid"));
    let session = state.session.as_ref().unwrap();
    assert!(session.project().clone_project() == before);
    assert_eq!(session.project().edit_generation(), 0);
    assert!(!session.can_undo());
    assert!(state.execution_preview.is_some());
}

#[test]
fn metadata_action_is_rejected_after_the_project_revision_changes() {
    let mut state = executable_state(4);
    let expected = state.session.as_ref().unwrap().project_content_digest();
    let stale = TasMetadataAction::new(
        expected,
        TasMetadataMutation::UpsertMarker {
            original_id: None,
            marker: TasMarker {
                id: "stale".to_owned(),
                branch_id: "main".to_owned(),
                cursor: 1,
                name: "Must not land".to_owned(),
            },
        },
    );
    state.reduce(TasEditorAction::InsertNeutralFrames { cursor: 0, count: 1 }).unwrap();
    let after_timeline_edit = project_of(&state);

    let error = state.reduce(TasEditorAction::Metadata(stale)).unwrap_err();

    assert_eq!(error, TasEditorError::StaleProject);
    assert!(error.message().contains("project changed"));
    assert!(project_of(&state) == after_timeline_edit);
    assert!(state.session.as_ref().unwrap().project().markers().is_empty());
}

#[test]
fn metadata_edits_report_what_they_did_and_refuse_other_branches_and_missing_entries() {
    let mut state = executable_state(4);
    let marker = TasMarker {
        id: "setup".to_owned(),
        branch_id: "main".to_owned(),
        cursor: 1,
        name: "Initial setup".to_owned(),
    };
    let added = reduce_metadata(&mut state, TasMetadataMutation::UpsertMarker { original_id: None, marker: marker.clone() });
    assert_eq!(added.unwrap().as_deref(), Some("Added marker \"setup\""));

    let unchanged = reduce_metadata(
        &mut state,
        TasMetadataMutation::UpsertMarker { original_id: Some("setup".to_owned()), marker: marker.clone() },
    );
    assert_eq!(unchanged.unwrap().as_deref(), Some("No marker/annotation change for \"setup\""));
    assert_eq!(state.session.as_ref().unwrap().project().edit_generation(), 1);

    let other_branch = reduce_metadata(
        &mut state,
        TasMetadataMutation::RemoveMarker { branch_id: "other".to_owned(), id: "setup".to_owned() },
    );
    assert_eq!(other_branch.unwrap_err(), TasEditorError::Metadata(TasMetadataError::BranchChanged));

    let missing = reduce_metadata(
        &mut state,
        TasMetadataMutation::RemoveAnnotation { branch_id: "main".to_owned(), id: "nothing".to_owned() },
    );
    assert_eq!(missing.unwrap_err(), TasEditorError::Metadata(TasMetadataError::MissingAnnotation));

    let removed = reduce_metadata(&mut state, TasMetadataMutation::RemoveMarker { branch_id: "main".to_owned(), id: "setup".to_owned() });
    assert_eq!(removed.unwrap().as_deref(), Some("Removed marker \"setup\""));
    assert_eq!(state.session.as_ref().unwrap().project().edit_generation(), 2);
}
