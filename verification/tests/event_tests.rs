use tas_editor::editor::{TasEditorAction, TasEditorWindowState};
use tas_editor::editor_events::{TasEventAction, TasEventMutation};
use tas_editor::fds_events::{can_author_fds_events, is_editable_event, project_media_id, FdsMediaMutation};
use tas_editor::identity::{TasDeviceIdentity, TasFirmwareIdentity, TasProjectIdentity};
use tas_editor::input::TasDigest;
use tas_editor::project::TasProject;
use tas_editor::replay::{MediaEvent, ReplayEvent};

fn project_with_firmware(frame_count: u64, events: Vec<ReplayEvent>, firmware: Vec<TasFirmwareIdentity>) -> TasProject {
    let identity = TasProjectIdentity {
        system: "nes".to_owned(),
        devices: vec![TasDeviceIdentity::new("p1", "nes-standard-controller")],
        firmware,
        effective_media_digest: TasDigest(1),
    };
    let mut project = TasProject::new("ui-fds-events", identity, "main", "Main", frame_count);
    project.branches[0].events = events;
    project
}

fn fds_project(frame_count: u64, events: Vec<ReplayEvent>) -> TasProject {
    project_with_firmware(
        frame_count,
        events,
        vec![TasFirmwareIdentity::External { firmware_id: "nintendo.fds.bios".to_owned(), digest: TasDigest(2) }],
    )
}

fn state_for_project(project: TasProject) -> TasEditorWindowState {
    let mut state = TasEditorWindowState::new();
    state.open_project(project, "movie.ztas").unwrap();
    state
}

fn fds_state(frame_count: u64, events: Vec<ReplayEvent>) -> TasEditorWindowState {
    state_for_project(fds_project(frame_count, events))
}

fn action(state: &TasEditorWindowState, mutation: TasEventMutation) -> TasEditorAction {
    TasEditorAction::Event(TasEventAction::new(
        state.session.as_ref().unwrap().project_content_digest(),
        mutation,
    ))
}

fn project_of(state: &TasEditorWindowState) -> TasProject {
    state.session.as_ref().unwrap().project().clone_project()
}

fn drive_media_id() -> String {
    project_media_id(&fds_project(1, Vec::new()).identity)
}

#[test]
fn fds_add_update_remove_are_canonical() {
    let mut state = fds_state(4, vec![ReplayEvent::FdsDiskSide { frame: 2, side: 2 }]);
    let initial_rerecords = state.session.as_ref().unwrap().project().rerecord_count();

    let add_terminal = action(&state, TasEventMutation::Add { branch_id: "main".to_owned(), frame: 3, side: 3 });
    state.reduce(add_terminal).unwrap();
    let add_earlier = action(&state, TasEventMutation::Add { branch_id: "main".to_owned(), frame: 0, side: 0 });
    state.reduce(add_earlier).unwrap();
    assert_eq!(
        state.session.as_ref().unwrap().selected_branch().events().iter().map(ReplayEvent::frame).collect::<Vec<_>>(),
        vec![0, 2, 3]
    );

    let expected = state.session.as_ref().unwrap().selected_branch().events()[1].clone();
    let update = action(
        &state,
        TasEventMutation::Update { branch_id: "main".to_owned(), canonical_index: 1, expected_event: expected, frame: 1, side: u8::MAX },
    );
    state.reduce(update).unwrap();
    assert_eq!(
        *state.session.as_ref().unwrap().selected_branch().events(),
        vec![
            ReplayEvent::FdsDiskSide { frame: 0, side: 0 },
            ReplayEvent::FdsDiskSide { frame: 1, side: u8::MAX },
            ReplayEvent::FdsDiskSide { frame: 3, side: 3 },
        ]
    );

    let terminal = state.session.as_ref().unwrap().selected_branch().events()[2].clone();
    let remove = action(&state, TasEventMutation::Remove { branch_id: "main".to_owned(), canonical_index: 2, expected_event: terminal });
    state.reduce(remove).unwrap();
    let session = state.session.as_ref().unwrap();
    assert_eq!(session.undo_count(), 4);
    assert_eq!(session.project().rerecord_count(), initial_rerecords + 4);
    assert!(session.can_undo());
    assert!(session.is_dirty());
    let generation = session.project().edit_generation();
    state.reduce(TasEditorAction::Autosave).unwrap();
    assert_eq!(state.session.as_ref().unwrap().last_autosaved_generation(), Some(generation));
}

#[test]
fn exact_fds_media_events_bind_project_drive_sequence_and_media() {
    let mut state = fds_state(8, Vec::new());
    for mutation in [
        TasEventMutation::AddMedia {
            branch_id: "main".to_owned(),
            frame: 0,
            mutation: FdsMediaMutation::SetWriteProtected { write_protected: true },
        },
        TasEventMutation::AddMedia { branch_id: "main".to_owned(), frame: 2, mutation: FdsMediaMutation::Eject },
        TasEventMutation::AddMedia {
            branch_id: "main".to_owned(),
            frame: 4,
            mutation: FdsMediaMutation::Insert { side: 3, write_protected: false },
        },
    ] {
        let event_action = action(&state, mutation);
        state.reduce(event_action).unwrap();
    }

    let media_id = drive_media_id();
    assert_eq!(
        *state.session.as_ref().unwrap().selected_branch().events(),
        vec![
            ReplayEvent::Media {
                frame: 0,
                sequence: 0,
                event: MediaEvent::SetWriteProtected { slot: "fds.drive0".to_owned(), write_protected: true },
            },
            ReplayEvent::Media { frame: 2, sequence: 0, event: MediaEvent::Eject { slot: "fds.drive0".to_owned() } },
            ReplayEvent::Media {
                frame: 4,
                sequence: 0,
                event: MediaEvent::Insert {
                    slot: "fds.drive0".to_owned(),
                    media_id,
                    side: Some(3),
                    write_protected: false,
                },
            },
        ]
    );

    let expected = state.session.as_ref().unwrap().selected_branch().events()[0].clone();
    let update = action(
        &state,
        TasEventMutation::UpdateMedia {
            branch_id: "main".to_owned(),
            canonical_index: 0,
            expected_event: expected,
            frame: 0,
            mutation: FdsMediaMutation::SetWriteProtected { write_protected: false },
        },
    );
    state.reduce(update).unwrap();
    assert!(matches!(
        &state.session.as_ref().unwrap().selected_branch().events()[0],
        ReplayEvent::Media { event: MediaEvent::SetWriteProtected { write_protected: false, .. }, .. }
    ));

    let remove = action(
        &state,
        TasEventMutation::Remove {
            branch_id: "main".to_owned(),
            canonical_index: 0,
            expected_event: state.session.as_ref().unwrap().selected_branch().events()[0].clone(),
        },
    );
    assert_eq!(state.reduce(remove).unwrap(), Some("Removed FDS drive event".to_owned()));
}

#[test]
fn exact_fds_media_mutations_reject_invalid_timeline_and_other_media() {
    let other_media = ReplayEvent::Media { frame: 0, sequence: 1, event: MediaEvent::Eject { slot: "other.drive".to_owned() } };
    assert!(!is_editable_event(&other_media, &drive_media_id()));

    let mut state = fds_state(
        3,
        vec![ReplayEvent::Media {
            frame: 0,
            sequence: 0,
            event: MediaEvent::SetWriteProtected { slot: "fds.drive0".to_owned(), write_protected: false },
        }],
    );
    let before = project_of(&state);
    for mutation in [
        TasEventMutation::AddMedia { branch_id: "main".to_owned(), frame: 0, mutation: FdsMediaMutation::Eject },
        TasEventMutation::AddMedia { branch_id: "main".to_owned(), frame: 3, mutation: FdsMediaMutation::Eject },
        TasEventMutation::AddMedia {
            branch_id: "main".to_owned(),
            frame: 1,
            mutation: FdsMediaMutation::Insert { side: 0, write_protected: false },
        },
    ] {
        let event_action = action(&state, mutation);
        assert!(state.reduce(event_action).is_err());
        assert_eq!(project_of(&state), before);
    }

    let mut state = fds_state(2, vec![other_media.clone()]);
    let remove = action(&state, TasEventMutation::Remove { branch_id: "main".to_owned(), canonical_index: 0, expected_event: other_media });
    let error = state.reduce(remove).unwrap_err();
    assert_eq!(error.message(), "only FDS drive events are editable in this panel");
}

#[test]
fn stale_branch_index_and_range_failures_roll_back_exactly() {
    let mut state = fds_state(2, vec![ReplayEvent::FdsDiskSide { frame: 1, side: 1 }]);
    let stale = action(
        &state,
        TasEventMutation::Update {
            branch_id: "main".to_owned(),
            canonical_index: 0,
            expected_event: ReplayEvent::FdsDiskSide { frame: 1, side: 1 },
            frame: 0,
            side: 2,
        },
    );
    state.reduce(TasEditorAction::InsertNeutralFrames { cursor: 0, count: 1 }).unwrap();
    let before_stale = project_of(&state);
    assert!(state.reduce(stale).is_err());
    assert_eq!(project_of(&state), before_stale);

    let before_branch = before_stale.clone_project();
    let wrong_branch = action(&state, TasEventMutation::Add { branch_id: "other".to_owned(), frame: 0, side: 0 });
    assert!(state.reduce(wrong_branch).is_err());
    assert_eq!(project_of(&state), before_branch);

    let out_of_range = action(&state, TasEventMutation::Add { branch_id: "main".to_owned(), frame: 4, side: 0 });
    assert!(state.reduce(out_of_range).is_err());
    assert_eq!(project_of(&state), before_branch);

    let wrong_expected = action(
        &state,
        TasEventMutation::Remove {
            branch_id: "main".to_owned(),
            canonical_index: 0,
            expected_event: ReplayEvent::FdsDiskSide { frame: 0, side: 9 },
        },
    );
    assert!(state.reduce(wrong_expected).is_err());
    assert_eq!(project_of(&state), before_branch);
}

#[test]
fn add_requires_exact_external_fds_firmware_but_existing_events_remain_repairable() {
    let project = fds_project(1, Vec::new());
    assert!(can_author_fds_events(&project.identity));

    let mut wrong_system = project.identity.clone_identity();
    wrong_system.system = "gb".to_owned();
    assert!(!can_author_fds_events(&wrong_system));

    let mut builtin = project.identity.clone_identity();
    builtin.firmware = vec![TasFirmwareIdentity::Builtin { firmware_id: "nintendo.fds.bios".to_owned() }];
    assert!(!can_author_fds_events(&builtin));

    let unsupported_existing = project_with_firmware(2, vec![ReplayEvent::FdsDiskSide { frame: 1, side: 7 }], Vec::new());
    assert!(!can_author_fds_events(&unsupported_existing.identity));
    let mut state = state_for_project(unsupported_existing);
    let expected = state.session.as_ref().unwrap().selected_branch().events()[0].clone();
    let repair = action(
        &state,
        TasEventMutation::Update { branch_id: "main".to_owned(), canonical_index: 0, expected_event: expected, frame: 1, side: 6 },
    );
    state.reduce(repair).unwrap();
    assert_eq!(*state.session.as_ref().unwrap().selected_branch().events(), vec![ReplayEvent::FdsDiskSide { frame: 1, side: 6 }]);

    let add = action(&state, TasEventMutation::Add { branch_id: "main".to_owned(), frame: 0, side: 1 });
    let error = state.reduce(add).unwrap_err();
    assert!(error.message().contains("nintendo.fds.bios"));
}

#[test]
fn unchanged_event_edit_adds_no_history() {
    let mut state = fds_state(4, vec![ReplayEvent::FdsDiskSide { frame: 2, side: 2 }]);
    let expected = state.session.as_ref().unwrap().selected_branch().events()[0].clone();
    let same = action(
        &state,
        TasEventMutation::Update { branch_id: "main".to_owned(), canonical_index: 0, expected_event: expected, frame: 2, side: 2 },
    );
    assert_eq!(
        state.reduce(same).unwrap(),
        Some("No event change (Updated FDS disk-side event)".to_owned())
    );
    assert_eq!(state.session.as_ref().unwrap().undo_count(), 0);
}
