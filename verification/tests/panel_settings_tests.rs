use tas_editor::identity::{TasDeviceIdentity, TasProjectIdentity};
use tas_editor::input::{TasControllerInput, TasDigest, TasDigitalTransform, TasSpecialInputMask, TasSpecialTransform};
use tas_editor::panel_settings::{
    TasDigitalAutofireUiState, TasDigitalTransformUiState, TasSpecialTransformUiState, has_special_capability,
    mask_is_empty, sanitize_mask,
};
use tas_editor::special_input::TasSpecialInputCapabilities;

fn identity(system: &str, players: usize) -> TasProjectIdentity {
    TasProjectIdentity {
        system: system.to_owned(),
        devices: (1..=players).map(|player| TasDeviceIdentity::new(&format!("p{player}"), "gamepad")).collect(),
        firmware: Vec::new(),
        effective_media_digest: TasDigest(2),
    }
}

#[test]
fn autofire_settings_start_on_a_two_frame_cycle_and_are_clamped_to_the_project() {
    let mut settings = TasDigitalAutofireUiState::new();
    assert_eq!(settings, TasDigitalAutofireUiState { player: 0, column: 4, period: 2, on_frames: 1 });

    settings.player = 4;
    settings.column = 40;
    settings.period = 90;
    settings.on_frames = 80;
    settings.restrict_to(&identity("gb", 1));
    assert_eq!(settings.player, 0);
    assert_eq!(settings.column, 7);
    assert_eq!(settings.period, 60);
    assert_eq!(settings.on_frames, 60);

    settings.period = 0;
    settings.on_frames = 3;
    settings.restrict_to(&identity("gb", 1));
    assert_eq!(settings.period, 1);
    assert_eq!(settings.on_frames, 1);
}

#[test]
fn selected_control_settings_drop_undeclared_players_and_unknown_bits() {
    let mut settings = TasDigitalTransformUiState::new();
    assert_eq!(settings.mask.players[0], TasControllerInput { buttons: 1, dpad: 0 });
    assert_eq!(settings.transform, TasDigitalTransform::Clear);
    settings.mask.players[0] = TasControllerInput { buttons: 0xff, dpad: 0xff };
    settings.mask.players[1] = TasControllerInput { buttons: 1, dpad: 1 };
    settings.player = 3;

    settings.restrict_to(&identity("gb", 1));

    assert_eq!(settings.mask.players[0], TasControllerInput { buttons: 0x0f, dpad: 0x0f });
    assert_eq!(settings.mask.players[1], TasControllerInput { buttons: 0, dpad: 0 });
    assert_eq!(settings.player, 0);
}

#[test]
fn special_transform_settings_keep_only_recordable_channels() {
    let settings = TasSpecialTransformUiState::new();
    assert!(mask_is_empty(settings.mask));
    assert_eq!(settings.transform, TasSpecialTransform::Clear);

    let mut mask = TasSpecialInputMask { zapper: true, tilt_x: true, tilt_y: true, camera: true };
    let tilt_only = TasSpecialInputCapabilities { nes_zapper: false, mbc7_tilt: false, gba_tilt: true, pocket_camera: false };
    sanitize_mask(&mut mask, tilt_only);
    assert_eq!(mask, TasSpecialInputMask { zapper: false, tilt_x: true, tilt_y: true, camera: false });
    assert!(!mask_is_empty(mask));
    assert!(has_special_capability(tilt_only));

    let none = TasSpecialInputCapabilities { nes_zapper: false, mbc7_tilt: false, gba_tilt: false, pocket_camera: false };
    sanitize_mask(&mut mask, none);
    assert!(mask_is_empty(mask));
    assert!(!has_special_capability(none));
}
