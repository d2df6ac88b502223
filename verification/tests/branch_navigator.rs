use tas_editor::editor::{TasEditorAction, TasEditorWindowState};
use tas_editor::identity::{TasDeviceIdentity, TasProjectIdentity};
use tas_editor::input::TasDigest;
use tas_editor::live::TasEditorLiveStatus;
use tas_editor::navigator::{
    branch_creation_enabled, branch_creation_hint, branch_creation_status,
    branch_deletion_enabled, branch_deletion_hint, branch_entries, branch_rename_enabled,
    branch_selection_enabled, branch_subtree_ids, generated_branch_action,
};
use tas_editor::project::TasProject;

fn navigator_state(frame_count: u64) -> TasEditorWindowState {
    let identity = TasProjectIdentity {
        system: "pce".to_owned(),
        devices: (1..=5)
            .map(|player| TasDeviceIdentity::new(&format!("p{player}"), "gamepad"))
            .collect(),
        firmware: Vec::new(),
        effective_media_digest: TasDigest(2),
    };
    let mut state = TasEditorWindowState::new();
    state
        .open_project(
            TasProject::new("ui-project", identity, "main", "Main", frame_count),
            "movie.ztas",
        )
        .unwrap();
    state
}

#[test]
fn navigator_orders_root_then_branch_id_and_labels_each_origin() {
    let mut state = navigator_state(4);
    state.session.as_mut().unwrap().set_cursor(2).unwrap();
    state
        .reduce(TasEditorAction::ForkBranch {
            id: "z-route".to_owned(),
            name: "Z route".to_owned(),
        })
        .unwrap();
    state
        .reduce(TasEditorAction::SelectBranch("main".to_owned()))
        .unwrap();
    state
        .reduce(TasEditorAction::ForkBranch {
            id: "a-route".to_owned(),
            name: "A route".to_owned(),
        })
        .unwrap();

    let entries = branch_entries(state.session.as_ref().unwrap());
    assert_eq!(
        entries
            .iter()
            .map(|entry| (entry.id.as_str(), entry.origin.as_str(), entry.active))
            .collect::<Vec<_>>(),
        vec![
            ("main", "root", false),
            ("a-route", "from Main at B(2)", true),
            ("z-route", "from Main at B(2)", false),
        ]
    );
}

#[test]
fn generated_branch_action_uses_the_first_available_identity() {
    let mut state = navigator_state(4);
    assert_eq!(
        generated_branch_action(state.session.as_ref().unwrap()),
        Some(TasEditorAction::ForkBranch {
            id: "branch-1".to_owned(),
            name: "Branch 1".to_owned(),
        })
    );
    let action = generated_branch_action(state.session.as_ref().unwrap()).unwrap();
    state.reduce(action).unwrap();
    assert_eq!(
        generated_branch_action(state.session.as_ref().unwrap()),
        Some(TasEditorAction::ForkBranch {
            id: "branch-2".to_owned(),
            name: "Branch 2".to_owned(),
        })
    );
}

#[test]
fn navigator_keeps_branch_selection_and_creation_at_the_existing_authority_gates() {
    let mut state = navigator_state(4);
    state.session.as_mut().unwrap().set_cursor(2).unwrap();
    let ready = TasEditorLiveStatus::Ready { recording_available: true };
    assert!(branch_selection_enabled(&ready));
    assert!(branch_rename_enabled(true, &ready));
    assert!(branch_deletion_enabled(true, &ready));
    assert!(branch_creation_enabled(state.session.as_ref().unwrap(), &ready));

    let linked_elsewhere = TasEditorLiveStatus::Linked { cursor: 1, recording_available: true };
    assert!(!branch_selection_enabled(&linked_elsewhere));
    assert!(!branch_rename_enabled(true, &linked_elsewhere));
    assert!(!branch_rename_enabled(false, &ready));
    assert!(!branch_deletion_enabled(true, &linked_elsewhere));
    assert!(!branch_deletion_enabled(false, &ready));
    assert!(!branch_creation_enabled(state.session.as_ref().unwrap(), &linked_elsewhere));
    assert_eq!(
        branch_creation_status(state.session.as_ref().unwrap(), &linked_elsewhere, true),
        "Move the loaded game to before input frame 2 to branch here."
    );
}

#[test]
fn navigator_counts_descendants_and_protects_the_active_family() {
    let mut state = navigator_state(4);
    state.session.as_mut().unwrap().set_cursor(2).unwrap();
    state
        .reduce(TasEditorAction::ForkBranch {
            id: "child".to_owned(),
            name: "Child".to_owned(),
        })
        .unwrap();
    state
        .reduce(TasEditorAction::ForkBranch {
            id: "grandchild".to_owned(),
            name: "Grandchild".to_owned(),
        })
        .unwrap();

    let entries = branch_entries(state.session.as_ref().unwrap());
    assert_eq!(
        entries
            .iter()
            .map(|entry| (entry.id.as_str(), entry.subtree_size, entry.contains_active))
            .collect::<Vec<_>>(),
        vec![("main", 3, true), ("child", 2, true), ("grandchild", 1, true)]
    );
}

#[test]
fn creation_status_reports_recording_and_ready_states() {
    let mut state = navigator_state(4);
    state.session.as_mut().unwrap().set_cursor(3).unwrap();
    let ready = TasEditorLiveStatus::Ready { recording_available: true };
    assert_eq!(
        branch_creation_status(state.session.as_ref().unwrap(), &ready, false),
        "Stop recording before creating a branch."
    );
    assert_eq!(
        branch_creation_status(state.session.as_ref().unwrap(), &ready, true),
        "Ready: the new branch will start before input frame 3."
    );
    assert_eq!(
        branch_creation_hint(state.session.as_ref().unwrap(), &ready, true),
        "Create and select a branch at the current frame"
    );
    let linked_elsewhere = TasEditorLiveStatus::Linked { cursor: 1, recording_available: true };
    assert_eq!(
        branch_creation_hint(state.session.as_ref().unwrap(), &linked_elsewhere, true),
        "Move the loaded game to the selected frame before creating a branch"
    );
}

#[test]
fn subtree_ids_list_the_branch_and_its_descendants() {
    let mut state = navigator_state(4);
    state
        .reduce(TasEditorAction::ForkBranch {
            id: "child".to_owned(),
            name: "Child".to_owned(),
        })
        .unwrap();
    let session = state.session.as_ref().unwrap();
    let mut ids = branch_subtree_ids(session, "main");
    ids.sort();
    assert_eq!(ids, vec!["child".to_owned(), "main".to_owned()]);
    assert_eq!(branch_subtree_ids(session, "child"), vec!["child".to_owned()]);
    let entries = branch_entries(session);
    let ready = TasEditorLiveStatus::Ready { recording_available: true };
    assert_eq!(entries[1].id, "child");
    assert_eq!(
        branch_deletion_hint(&entries[1], true, &ready),
        "Switch to another branch before deleting this one"
    );
    assert_eq!(
        branch_deletion_hint(&entries[0], true, &ready),
        "Switch outside this branch family before deleting it"
    );
    assert_eq!(
        branch_deletion_hint(&entries[0], false, &ready),
        "Stop recording before deleting a branch"
    );
}
