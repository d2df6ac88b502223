use tas_editor::editor::{TasEditorAction, TasEditorError, TasEditorExecutionAvailability, TasEditorWindowState};
use tas_editor::editor_live::{TasEditorExecutionAttachment, TasEditorExecutionOutcome};
use tas_editor::identity::{TasDeviceIdentity, TasProjectIdentity};
use tas_editor::input::{TasCameraInput, TasDigest, TasInputFrame, TasScreenPos, TasZapperInput};
use tas_editor::project::{TasAsset, TasProject};
use tas_editor::special_input::{
    camera_asset_is_authorable, special_input_capabilities, TasSpecialInputAction,
    TasSpecialInputCapabilities, TasSpecialInputMutation, POCKET_CAMERA_FRAME_BYTES,
};

const NES_ZAPPER_DEVICE: &str = "nes-zapper";
const GAME_BOY_MBC7_DEVICE: &str = "game-boy-mbc7";
const GAME_BOY_POCKET_CAMERA_DEVICE: &str = "game-boy-pocket-camera";
const GBA_TILT_DEVICE: &str = "gba-tilt-sensor";

fn synthetic_identity(system: &str, device_names: &[&str]) -> TasProjectIdentity {
    TasProjectIdentity {
        system: system.to_owned(),
        devices: device_names
            .iter()
            .enumerate()
            .map(|(index, device)| TasDeviceIdentity::new(&format!("special-{index}"), device))
            .collect(),
        firmware: Vec::new(),
        effective_media_digest: TasDigest(2),
    }
}

fn synthetic_state(
    system: &str,
    devices: &[&str],
    initial_input: TasInputFrame,
    assets: Vec<(TasDigest, Vec<u8>)>,
) -> TasEditorWindowState {
    let mut project = TasProject::new(
        "special-input-project",
        synthetic_identity(system, devices),
        "main",
        "Main",
        3,
    );
    project.branches[0].frames[0] = initial_input;
    for (digest, bytes) in assets {
        project.assets.push(TasAsset { digest, bytes });
    }
    let mut state = TasEditorWindowState::new();
    state.open_project(project, "movie.ztas").unwrap();
    state
}

fn reduce_special(
    state: &mut TasEditorWindowState,
    cursor: u64,
    mutation: TasSpecialInputMutation,
) -> Result<Option<String>, TasEditorError> {
    let session = state.session.as_ref().unwrap();
    let action = TasSpecialInputAction::new(
        session.project_content_digest(),
        session.selected_branch_id().to_owned(),
        cursor,
        mutation,
    );
    state.reduce(TasEditorAction::SpecialInput(action))
}

#[test]
fn capabilities_require_exact_system_and_device_identity() {
    let standard_nes = synthetic_identity("nes", &["nes-standard-controller"]);
    assert_eq!(
        special_input_capabilities(&standard_nes),
        TasSpecialInputCapabilities::default()
    );

    let zapper = synthetic_identity("nes", &[NES_ZAPPER_DEVICE]);
    assert!(special_input_capabilities(&zapper).nes_zapper);
    let wrong_system = synthetic_identity("pce", &[NES_ZAPPER_DEVICE]);
    assert_eq!(
        special_input_capabilities(&wrong_system),
        TasSpecialInputCapabilities::default()
    );

    let game_boy =
        synthetic_identity("gb", &[GAME_BOY_MBC7_DEVICE, GAME_BOY_POCKET_CAMERA_DEVICE]);
    let capabilities = special_input_capabilities(&game_boy);
    assert!(capabilities.mbc7_tilt);
    assert!(capabilities.pocket_camera);
    assert!(!capabilities.nes_zapper);

    let gba = synthetic_identity("gba", &[GBA_TILT_DEVICE]);
    let capabilities = special_input_capabilities(&gba);
    assert!(capabilities.gba_tilt);
    assert!(!capabilities.mbc7_tilt);

    let wrong_gba_system = synthetic_identity("gb", &[GBA_TILT_DEVICE]);
    assert!(!special_input_capabilities(&wrong_gba_system).gba_tilt);
}

#[test]
fn gba_tilt_is_authorable_with_exact_raw_bits() {
    let mut state = synthetic_state("gba", &[GBA_TILT_DEVICE], TasInputFrame::default(), Vec::new());
    let (x_bits, y_bits) = (0x7FC0_0123, 0xBF00_0000);
    reduce_special(&mut state, 1, TasSpecialInputMutation::RecordedTilt { x_bits, y_bits })
        .unwrap();
    let branch = state.session.as_ref().unwrap().selected_branch();
    assert_eq!(
        (branch.input_at(1).tilt_x_bits, branch.input_at(1).tilt_y_bits),
        (x_bits, y_bits)
    );
    assert_eq!(branch.input_at(0), TasInputFrame::default());
    assert_eq!(branch.input_at(2), TasInputFrame::default());
}

#[test]
fn applicable_channels_replace_only_the_selected_frame_exactly() {
    let mut zapper_state =
        synthetic_state("nes", &[NES_ZAPPER_DEVICE], TasInputFrame::default(), Vec::new());
    let zapper = TasZapperInput {
        enabled: true,
        trigger: true,
        hit: false,
        screen_pos: Some(TasScreenPos { x: 255, y: 239 }),
    };
    reduce_special(&mut zapper_state, 1, TasSpecialInputMutation::NesZapper(zapper)).unwrap();
    let branch = zapper_state.session.as_ref().unwrap().selected_branch();
    assert_eq!(branch.input_at(1).zapper, zapper);
    assert_eq!(branch.input_at(0), TasInputFrame::default());
    assert_eq!(branch.input_at(2), TasInputFrame::default());

    let mut initial_tilt_frame = TasInputFrame::default();
    initial_tilt_frame.players[2].buttons = 0xA5;
    initial_tilt_frame.players[2].dpad = 0x5A;
    let mut tilt_state =
        synthetic_state("gb", &[GAME_BOY_MBC7_DEVICE], initial_tilt_frame, Vec::new());
    let (x_bits, y_bits) = (0x7FC0_0123, 0x8000_0000);
    reduce_special(&mut tilt_state, 0, TasSpecialInputMutation::RecordedTilt { x_bits, y_bits })
        .unwrap();
    let input = tilt_state.session.as_ref().unwrap().selected_branch().input_at(0);
    assert_eq!((input.tilt_x_bits, input.tilt_y_bits), (x_bits, y_bits));
    assert_eq!(input.players, initial_tilt_frame.players);
    assert_eq!(input.zapper, initial_tilt_frame.zapper);
    assert_eq!(input.camera, initial_tilt_frame.camera);
}

#[test]
fn camera_selection_uses_only_an_existing_content_addressed_asset() {
    let bytes = vec![0x10; POCKET_CAMERA_FRAME_BYTES];
    let digest = TasDigest(0x10);
    let wrong_bytes = vec![0x20; POCKET_CAMERA_FRAME_BYTES - 1];
    let wrong_digest = TasDigest(0x20);
    assert!(camera_asset_is_authorable(&bytes));
    assert!(!camera_asset_is_authorable(&wrong_bytes));
    let mut state = synthetic_state(
        "gb",
        &[GAME_BOY_POCKET_CAMERA_DEVICE],
        TasInputFrame::default(),
        vec![(digest, bytes), (wrong_digest, wrong_bytes)],
    );
    let wrong_size_error = reduce_special(
        &mut state,
        0,
        TasSpecialInputMutation::PocketCamera(TasCameraInput::Blob(wrong_digest)),
    )
    .unwrap_err();
    assert!(wrong_size_error.message().contains("128x112"));
    reduce_special(
        &mut state,
        0,
        TasSpecialInputMutation::PocketCamera(TasCameraInput::Blob(digest)),
    )
    .unwrap();
    assert_eq!(
        state.session.as_ref().unwrap().selected_branch().input_at(0).camera,
        TasCameraInput::Blob(digest)
    );

    let missing = TasDigest(0xEE);
    let before = state.session.as_ref().unwrap().project().clone_project();
    let error = reduce_special(
        &mut state,
        1,
        TasSpecialInputMutation::PocketCamera(TasCameraInput::Blob(missing)),
    )
    .unwrap_err();
    assert!(error.message().contains("missing camera asset"));
    assert_eq!(*state.session.as_ref().unwrap().project(), before);
}

#[test]
fn legacy_wrong_sized_camera_reference_is_preserved_until_explicitly_cleared() {
    let bytes = vec![0x44; 7];
    let digest = TasDigest(0x44);
    let initial_input = TasInputFrame { camera: TasCameraInput::Blob(digest), ..TasInputFrame::default() };
    let mut state = synthetic_state(
        "gb",
        &[GAME_BOY_POCKET_CAMERA_DEVICE],
        initial_input,
        vec![(digest, bytes)],
    );

    reduce_special(
        &mut state,
        0,
        TasSpecialInputMutation::PocketCamera(TasCameraInput::Blob(digest)),
    )
    .unwrap();
    assert_eq!(
        state.session.as_ref().unwrap().selected_branch().input_at(0).camera,
        TasCameraInput::Blob(digest)
    );
    reduce_special(&mut state, 0, TasSpecialInputMutation::PocketCamera(TasCameraInput::NoFrame))
        .unwrap();
    assert_eq!(
        state.session.as_ref().unwrap().selected_branch().input_at(0).camera,
        TasCameraInput::NoFrame
    );
}

#[test]
fn unsupported_legacy_value_can_only_be_cleared() {
    let initial_input = TasInputFrame {
        zapper: TasZapperInput { enabled: true, trigger: true, ..TasZapperInput::default() },
        ..TasInputFrame::default()
    };
    let mut state =
        synthetic_state("nes", &["nes-standard-controller"], initial_input, Vec::new());
    let error = reduce_special(
        &mut state,
        0,
        TasSpecialInputMutation::NesZapper(TasZapperInput {
            enabled: true,
            trigger: false,
            ..TasZapperInput::default()
        }),
    )
    .unwrap_err();
    assert!(error.message().contains("does not declare"));

    reduce_special(&mut state, 0, TasSpecialInputMutation::NesZapper(TasZapperInput::default()))
        .unwrap();
    assert_eq!(
        state.session.as_ref().unwrap().selected_branch().input_at(0),
        TasInputFrame::default()
    );
}

fn executable_zapper_state() -> TasEditorWindowState {
    let mut state = synthetic_state("nes", &[NES_ZAPPER_DEVICE], TasInputFrame::default(), Vec::new());
    state.attach_execution(TasEditorExecutionAttachment::Available);
    state
}

fn seek_and_present(state: &mut TasEditorWindowState, target: u64) {
    state.reduce(TasEditorAction::ExecuteSeek(target)).unwrap();
    state
        .install_execution_outcome(&TasEditorExecutionOutcome {
            cursor: target,
            requested_cursor: target,
            executed_frames: target,
            cache_store_error: None,
        })
        .unwrap();
}

#[test]
fn failed_action_rolls_back_and_preserves_exact_preview() {
    let mut state = executable_zapper_state();
    seek_and_present(&mut state, 1);
    let preview = state.execution_preview;
    let before = state.session.as_ref().unwrap().project().clone_project();

    let error = reduce_special(
        &mut state,
        3,
        TasSpecialInputMutation::NesZapper(TasZapperInput {
            enabled: true,
            ..TasZapperInput::default()
        }),
    )
    .unwrap_err();

    assert!(error.message().contains("end cursor"));
    let session = state.session.as_ref().unwrap();
    assert_eq!(*session.project(), before);
    assert_eq!(session.project().edit_generation(), 0);
    assert!(!session.can_undo());
    assert!(state.execution_preview.is_some());
    assert_eq!(state.execution_preview, preview);
}

#[test]
fn queued_action_fails_closed_after_an_exact_project_revision_change() {
    let mut state =
        synthetic_state("gb", &[GAME_BOY_MBC7_DEVICE], TasInputFrame::default(), Vec::new());
    let session = state.session.as_ref().unwrap();
    let stale = TasSpecialInputAction::new(
        session.project_content_digest(),
        "main".to_owned(),
        1,
        TasSpecialInputMutation::RecordedTilt { x_bits: 0x3F80_0000, y_bits: 0 },
    );
    reduce_special(
        &mut state,
        0,
        TasSpecialInputMutation::RecordedTilt { x_bits: 0, y_bits: 0x4000_0000 },
    )
    .unwrap();
    let after_first_edit = state.session.as_ref().unwrap().project().clone_project();

    let error = state.reduce(TasEditorAction::SpecialInput(stale)).unwrap_err();

    assert!(error.message().contains("project changed"));
    assert_eq!(*state.session.as_ref().unwrap().project(), after_first_edit);
    assert_eq!(
        state.session.as_ref().unwrap().selected_branch().input_at(1),
        TasInputFrame::default()
    );
}

#[test]
fn successful_movie_edit_clears_preview_and_preserves_history_rerecord_autosave() {
    let mut state = executable_zapper_state();
    seek_and_present(&mut state, 1);
    assert!(state.execution_preview.is_some());

    reduce_special(
        &mut state,
        1,
        TasSpecialInputMutation::NesZapper(TasZapperInput {
            enabled: true,
            trigger: true,
            hit: true,
            screen_pos: Some(TasScreenPos { x: 12, y: 34 }),
        }),
    )
    .unwrap();
    let session = state.session.as_ref().unwrap();
    assert_eq!(session.project().edit_generation(), 1);
    assert_eq!(session.project().rerecord_count(), 1);
    assert!(session.can_undo());
    assert!(state.execution_preview.is_none());
    assert_eq!(state.execution_availability, TasEditorExecutionAvailability::Ready);

    state.reduce(TasEditorAction::Autosave).unwrap();
    assert_eq!(state.session.as_ref().unwrap().last_autosaved_generation(), Some(1));
    state.reduce(TasEditorAction::Undo).unwrap();
    assert_eq!(state.session.as_ref().unwrap().selected_branch().input_at(1), TasInputFrame::default());
    state.reduce(TasEditorAction::Redo).unwrap();
    assert!(state.session.as_ref().unwrap().selected_branch().input_at(1).zapper.trigger);
    assert_eq!(state.session.as_ref().unwrap().project().rerecord_count(), 1);
    assert_eq!(state.session.as_ref().unwrap().last_autosaved_generation(), Some(1));
}
