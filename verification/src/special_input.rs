//! Recorded special input (light gun, tilt, camera frames): which devices a
//! project declares, and which special input it may therefore hold.
use vstd::prelude::*;

use crate::identity::{DeviceModel, IdentityModel, TasProjectIdentity};
use crate::input::{TasCameraInput, TasDigest, TasInputFrame, TasZapperInput};
use crate::project::{AssetModel, TasAsset, assets_view};
use crate::text::str_eq;

verus! {

/// Bytes of one recorded Pocket Camera frame (128x112 pixels, two bits each).
pub const POCKET_CAMERA_FRAME_BYTES: usize = 3584;

/// The special-input devices a project declares.
#[derive(Clone, Copy, Debug, Default, PartialEq, Eq, Structural)]
pub struct TasSpecialInputCapabilities {
    pub nes_zapper: bool,
    pub mbc7_tilt: bool,
    pub gba_tilt: bool,
    pub pocket_camera: bool,
}

/// A special-input change at one frame.
#[derive(Clone, Copy, Debug, PartialEq, Eq, Structural)]
pub enum TasSpecialInputMutation {
    NesZapper(TasZapperInput),
    RecordedTilt { x_bits: u32, y_bits: u32 },
    PocketCamera(TasCameraInput),
}

/// A special-input edit drafted against one project state, branch and frame.
#[derive(Clone, Debug, PartialEq, Eq)]
pub struct TasSpecialInputAction {
    pub expected_project_digest: TasDigest,
    pub branch_id: String,
    pub cursor: u64,
    pub mutation: TasSpecialInputMutation,
}

/// Why special input was refused.
#[derive(Clone, Copy, Debug, PartialEq, Eq, Structural)]
pub enum TasSpecialInputError {
    /// The project does not declare the device.
    UndeclaredDevice,
    /// A camera frame names no project asset.
    MissingCameraAsset,
    /// A camera asset is not exactly one frame.
    CameraAssetSize,
}

impl TasSpecialInputError {
    /// The sentence shown for the error.
    pub open spec fn message_text(&self) -> Seq<char> {
        match self {
            TasSpecialInputError::UndeclaredDevice => "project identity does not declare the special-input device"@,
            TasSpecialInputError::MissingCameraAsset => "TAS input references a missing camera asset"@,
            TasSpecialInputError::CameraAssetSize => "Pocket Camera input requires an exact 3584-byte (128x112) project asset"@,
        }
    }

    pub fn message(&self) -> (r: &'static str)
        ensures
            r@ == self.message_text(),
    {
        match self {
            TasSpecialInputError::UndeclaredDevice => "project identity does not declare the special-input device",
            TasSpecialInputError::MissingCameraAsset => "TAS input references a missing camera asset",
            TasSpecialInputError::CameraAssetSize => "Pocket Camera input requires an exact 3584-byte (128x112) project asset",
        }
    }
}

pub open spec fn has_device_spec(identity: IdentityModel, device: Seq<char>) -> bool {
    exists|k: int| 0 <= k < identity.devices.len() && (#[trigger] identity.devices[k]).device == device
}

pub open spec fn is_game_boy(system: Seq<char>) -> bool {
    system == "gb"@ || system == "game_boy"@
}

/// The devices a project identity declares, each only on its own system.
pub open spec fn spec_capabilities(identity: IdentityModel) -> TasSpecialInputCapabilities {
    TasSpecialInputCapabilities {
        nes_zapper: identity.system == "nes"@ && has_device_spec(identity, "nes-zapper"@),
        mbc7_tilt: is_game_boy(identity.system) && has_device_spec(identity, "game-boy-mbc7"@),
        gba_tilt: identity.system == "gba"@ && has_device_spec(identity, "gba-tilt-sensor"@),
        pocket_camera: is_game_boy(identity.system) && has_device_spec(identity, "game-boy-pocket-camera"@),
    }
}

proof fn lemma_has_device_view(identity: &TasProjectIdentity, d: Seq<char>)
    ensures
        has_device_spec(identity@, d) == exists|k: int| 0 <= k < identity.devices@.len() && (#[trigger] identity.devices@[k]).device@ == d,
{
    if has_device_spec(identity@, d) {
        let k = choose|k: int| 0 <= k < identity@.devices.len() && (#[trigger] identity@.devices[k]).device == d;
        assert(identity@.devices[k] == identity.devices@[k]@);
    }
    if exists|k: int| 0 <= k < identity.devices@.len() && (#[trigger] identity.devices@[k]).device@ == d {
        let k = choose|k: int| 0 <= k < identity.devices@.len() && (#[trigger] identity.devices@[k]).device@ == d;
        assert(identity@.devices[k] == identity.devices@[k]@);
    }
}

/// The special-input devices `identity` declares.
pub fn special_input_capabilities(identity: &TasProjectIdentity) -> (r: TasSpecialInputCapabilities)
    ensures
        r == spec_capabilities(identity@),
{
    let system = identity.system.as_str();
    let game_boy = str_eq(system, "gb") || str_eq(system, "game_boy");
    proof {
        lemma_has_device_view(identity, "nes-zapper"@);
        lemma_has_device_view(identity, "game-boy-mbc7"@);
        lemma_has_device_view(identity, "gba-tilt-sensor"@);
        lemma_has_device_view(identity, "game-boy-pocket-camera"@);
    }
    TasSpecialInputCapabilities {
        nes_zapper: str_eq(system, "nes") && identity.has_device("nes-zapper"),
        mbc7_tilt: game_boy && identity.has_device("game-boy-mbc7"),
        gba_tilt: str_eq(system, "gba") && identity.has_device("gba-tilt-sensor"),
        pocket_camera: game_boy && identity.has_device("game-boy-pocket-camera"),
    }
}

/// "gb" and "game_boy" name the same system: a project declares the same
/// special-input devices under either name.
pub proof fn law_game_boy_names_agree(identity: IdentityModel)
    requires
        identity.system == "game_boy"@,
    ensures
        spec_capabilities(identity) == spec_capabilities(IdentityModel { system: "gb"@, ..identity }),
{
    reveal_strlit("game_boy");
    reveal_strlit("gb");
    reveal_strlit("nes");
    reveal_strlit("gba");
    let g = IdentityModel { system: "gb"@, ..identity };
    assert(identity.system.len() == 8);
    assert("gb"@.len() == 2 && "nes"@.len() == 3 && "gba"@.len() == 3);
    assert(is_game_boy(identity.system) && is_game_boy(g.system));
    assert(identity.system != "nes"@ && g.system != "nes"@);
    assert(identity.system != "gba"@ && g.system != "gba"@);
    assert(g.devices == identity.devices);
}

/// A Game Boy project, under either name of the system, records Pocket
/// Camera frames and MBC7 tilt exactly when it declares those devices, and
/// never Zapper or GBA tilt input.
pub proof fn law_game_boy_capabilities(identity: IdentityModel)
    requires
        identity.system == "gb"@ || identity.system == "game_boy"@,
    ensures
        spec_capabilities(identity).pocket_camera == has_device_spec(identity, "game-boy-pocket-camera"@),
        spec_capabilities(identity).mbc7_tilt == has_device_spec(identity, "game-boy-mbc7"@),
        !spec_capabilities(identity).nes_zapper,
        !spec_capabilities(identity).gba_tilt,
{
    reveal_strlit("game_boy");
    reveal_strlit("gb");
    reveal_strlit("nes");
    reveal_strlit("gba");
    if identity.system == "gb"@ {
        assert(identity.system.len() == 2);
    } else {
        assert(identity.system.len() == 8);
    }
    assert("nes"@.len() == 3 && "gba"@.len() == 3);
}

proof fn lemma_has_device_push(identity: IdentityModel, d: DeviceModel, name: Seq<char>)
    ensures
        has_device_spec(IdentityModel { devices: identity.devices.push(d), ..identity }, name)
            == (has_device_spec(identity, name) || d.device == name),
{
    let g = IdentityModel { devices: identity.devices.push(d), ..identity };
    if has_device_spec(identity, name) {
        let k = choose|k: int| 0 <= k < identity.devices.len() && (#[trigger] identity.devices[k]).device == name;
        assert(g.devices[k] == identity.devices[k]);
    }
    if d.device == name {
        assert(g.devices[identity.devices.len() as int] == d);
    }
    if has_device_spec(g, name) {
        let k = choose|k: int| 0 <= k < g.devices.len() && (#[trigger] g.devices[k]).device == name;
        if k < identity.devices.len() {
            assert(g.devices[k] == identity.devices[k]);
        }
    }
}

/// Declaring one more device keeps every capability a project had, and adds
/// at most the one that device provides on the project's system.
pub proof fn law_declaring_a_device_adds_only_its_capability(identity: IdentityModel, d: DeviceModel)
    ensures
        ({
            let before = spec_capabilities(identity);
            let after = spec_capabilities(IdentityModel { devices: identity.devices.push(d), ..identity });
            &&& before.nes_zapper ==> after.nes_zapper
            &&& before.mbc7_tilt ==> after.mbc7_tilt
            &&& before.gba_tilt ==> after.gba_tilt
            &&& before.pocket_camera ==> after.pocket_camera
            &&& d.device != "nes-zapper"@ ==> after.nes_zapper == before.nes_zapper
            &&& d.device != "game-boy-mbc7"@ ==> after.mbc7_tilt == before.mbc7_tilt
            &&& d.device != "gba-tilt-sensor"@ ==> after.gba_tilt == before.gba_tilt
            &&& d.device != "game-boy-pocket-camera"@ ==> after.pocket_camera == before.pocket_camera
        }),
{
    lemma_has_device_push(identity, d, "nes-zapper"@);
    lemma_has_device_push(identity, d, "game-boy-mbc7"@);
    lemma_has_device_push(identity, d, "gba-tilt-sensor"@);
    lemma_has_device_push(identity, d, "game-boy-pocket-camera"@);
}

pub open spec fn spec_recorded_tilt_device(c: TasSpecialInputCapabilities) -> Option<(&'static str, &'static str)> {
    if c.mbc7_tilt {
        Some(("game-boy-mbc7", "Game Boy MBC7 recorded tilt"))
    } else if c.gba_tilt {
        Some(("gba-tilt-sensor", "GBA cartridge recorded tilt"))
    } else {
        None
    }
}

impl TasSpecialInputCapabilities {
    /// The declared recorded-tilt device and its label.
    pub fn recorded_tilt_device(self) -> (r: Option<(&'static str, &'static str)>)
        ensures
            r == spec_recorded_tilt_device(self),
    {
        if self.mbc7_tilt {
            Some(("game-boy-mbc7", "Game Boy MBC7 recorded tilt"))
        } else if self.gba_tilt {
            Some(("gba-tilt-sensor", "GBA cartridge recorded tilt"))
        } else {
            None
        }
    }
}

impl TasSpecialInputAction {
    pub fn new(expected_project_digest: TasDigest, branch_id: String, cursor: u64, mutation: TasSpecialInputMutation) -> (r: Self)
        ensures
            r.expected_project_digest == expected_project_digest,
            r.branch_id@ == branch_id@,
            r.cursor == cursor,
            r.mutation == mutation,
    {
        TasSpecialInputAction { expected_project_digest, branch_id, cursor, mutation }
    }
}

/// A device may be edited when declared; undeclared input may only be cleared.
pub open spec fn spec_editable_or_clearing(capability: bool, currently_nondefault: bool, replacement_is_default: bool) -> bool {
    capability || (currently_nondefault && replacement_is_default)
}

/// Accepts an edit of a device's input when the device is declared, or when
/// the edit clears stored input of an undeclared device.
pub fn ensure_editable_or_clearing(capability: bool, currently_nondefault: bool, replacement_is_default: bool) -> (r: Result<(), TasSpecialInputError>)
    ensures
        r is Ok == spec_editable_or_clearing(capability, currently_nondefault, replacement_is_default),
        r is Err ==> r == Err::<(), TasSpecialInputError>(TasSpecialInputError::UndeclaredDevice),
{
    if capability || (currently_nondefault && replacement_is_default) {
        Ok(())
    } else {
        Err(TasSpecialInputError::UndeclaredDevice)
    }
}

/// The frame after `mutation`, when the capabilities allow it.
pub open spec fn spec_apply_mutation(input: TasInputFrame, mutation: TasSpecialInputMutation, c: TasSpecialInputCapabilities) -> Option<TasInputFrame> {
    match mutation {
        TasSpecialInputMutation::NesZapper(z) => if spec_editable_or_clearing(c.nes_zapper, input.zapper != TasZapperInput::spec_neutral(), z == TasZapperInput::spec_neutral()) {
            Some(TasInputFrame { zapper: z, ..input })
        } else {
            None
        },
        TasSpecialInputMutation::RecordedTilt { x_bits, y_bits } => if spec_editable_or_clearing(
            spec_recorded_tilt_device(c) is Some,
            !(input.tilt_x_bits == 0 && input.tilt_y_bits == 0),
            x_bits == 0 && y_bits == 0,
        ) {
            Some(TasInputFrame { tilt_x_bits: x_bits, tilt_y_bits: y_bits, ..input })
        } else {
            None
        },
        TasSpecialInputMutation::PocketCamera(camera) => if spec_editable_or_clearing(c.pocket_camera, input.camera != TasCameraInput::NoFrame, camera == TasCameraInput::NoFrame) {
            Some(TasInputFrame { camera, ..input })
        } else {
            None
        },
    }
}

pub open spec fn spec_mutation_label(mutation: TasSpecialInputMutation, c: TasSpecialInputCapabilities) -> &'static str {
    match mutation {
        TasSpecialInputMutation::NesZapper(_) => "NES Zapper recorded input",
        TasSpecialInputMutation::RecordedTilt { .. } => match spec_recorded_tilt_device(c) {
            Some((_, label)) => label,
            None => "recorded tilt",
        },
        TasSpecialInputMutation::PocketCamera(_) => "Game Boy Pocket Camera recorded frame",
    }
}

/// Applies `mutation` to `input`; returns the label of what was edited.
pub fn apply_mutation(input: &mut TasInputFrame, mutation: TasSpecialInputMutation, capabilities: TasSpecialInputCapabilities) -> (r: Result<&'static str, TasSpecialInputError>)
    ensures
        match spec_apply_mutation(*old(input), mutation, capabilities) {
            Some(f) => r == Ok::<&'static str, TasSpecialInputError>(spec_mutation_label(mutation, capabilities)) && *final(input) == f,
            None => r == Err::<&'static str, TasSpecialInputError>(TasSpecialInputError::UndeclaredDevice) && *final(input) == *old(input),
        },
{
    match mutation {
        TasSpecialInputMutation::NesZapper(zapper) => {
            let neutral = TasZapperInput::neutral();
            match ensure_editable_or_clearing(capabilities.nes_zapper, input.zapper != neutral, zapper == neutral) {
                Ok(()) => {},
                Err(e) => return Err(e),
            }
            input.zapper = zapper;
            Ok("NES Zapper recorded input")
        },
        TasSpecialInputMutation::RecordedTilt { x_bits, y_bits } => {
            let device = capabilities.recorded_tilt_device();
            match ensure_editable_or_clearing(
                device.is_some(),
                !(input.tilt_x_bits == 0 && input.tilt_y_bits == 0),
                x_bits == 0 && y_bits == 0,
            ) {
                Ok(()) => {},
                Err(e) => return Err(e),
            }
            input.tilt_x_bits = x_bits;
            input.tilt_y_bits = y_bits;
            match device {
                Some((_, label)) => Ok(label),
                None => Ok("recorded tilt"),
            }
        },
        TasSpecialInputMutation::PocketCamera(camera) => {
            match ensure_editable_or_clearing(
                capabilities.pocket_camera,
                input.camera != TasCameraInput::NoFrame,
                camera == TasCameraInput::NoFrame,
            ) {
                Ok(()) => {},
                Err(e) => return Err(e),
            }
            input.camera = camera;
            Ok("Game Boy Pocket Camera recorded frame")
        },
    }
}

/// Whether `bytes` hold exactly one camera frame.
pub fn camera_asset_is_authorable(bytes: &Vec<u8>) -> (r: bool)
    ensures
        r == (bytes@.len() == POCKET_CAMERA_FRAME_BYTES),
{
    bytes.len() == POCKET_CAMERA_FRAME_BYTES
}

/// The bytes of the first asset named `digest`.
pub open spec fn asset_bytes(assets: Seq<AssetModel>, digest: TasDigest) -> Option<Seq<u8>> {
    if exists|k: int| 0 <= k < assets.len() && (#[trigger] assets[k]).digest == digest {
        let k = choose|k: int|
            0 <= k < assets.len() && (#[trigger] assets[k]).digest == digest
                && forall|j: int| 0 <= j < k ==> (#[trigger] assets[j]).digest != digest;
        Some(assets[k].bytes)
    } else {
        None
    }
}

/// Index of the first asset named `digest`.
pub fn find_asset(assets: &Vec<TasAsset>, digest: TasDigest) -> (r: Option<usize>)
    ensures
        match r {
            Some(k) => k < assets@.len() && assets@[k as int].digest == digest
                && forall|j: int| 0 <= j < k ==> (#[trigger] assets@[j]).digest != digest,
            None => forall|j: int| 0 <= j < assets@.len() ==> (#[trigger] assets@[j]).digest != digest,
        },
{
    let mut i: usize = 0;
    while i < assets.len()
        invariant
            0 <= i <= assets@.len(),
            forall|j: int| 0 <= j < i ==> (#[trigger] assets@[j]).digest != digest,
        decreases assets@.len() - i,
    {
        if assets[i].digest == digest {
            return Some(i);
        }
        i += 1;
    }
    None
}

/// Whether a project with `identity` and `assets` may hold `input`.
pub open spec fn spec_input_authorable(identity: IdentityModel, assets: Seq<AssetModel>, input: TasInputFrame) -> bool {
    let c = spec_capabilities(identity);
    &&& input.zapper != TasZapperInput::spec_neutral() ==> c.nes_zapper
    &&& !(input.tilt_x_bits == 0 && input.tilt_y_bits == 0) ==> spec_recorded_tilt_device(c) is Some
    &&& match input.camera {
        TasCameraInput::Blob(d) => c.pocket_camera && asset_bytes(assets, d) is Some
            && asset_bytes(assets, d).unwrap().len() == POCKET_CAMERA_FRAME_BYTES,
        TasCameraInput::NoFrame => true,
    }
}

/// Accepts `input` when the project declares every special-input device it
/// uses and its camera frame is a project asset of exactly one frame.
pub fn ensure_nondefault_input_authorable(identity: &TasProjectIdentity, assets: &Vec<TasAsset>, input: TasInputFrame) -> (r: Result<(), TasSpecialInputError>)
    ensures
        r is Ok == spec_input_authorable(identity@, assets_view(assets@), input),
{
    let c = special_input_capabilities(identity);
    if input.zapper != TasZapperInput::neutral() && !c.nes_zapper {
        return Err(TasSpecialInputError::UndeclaredDevice);
    }
    if !(input.tilt_x_bits == 0 && input.tilt_y_bits == 0) && c.recorded_tilt_device().is_none() {
        return Err(TasSpecialInputError::UndeclaredDevice);
    }
    match input.camera {
        TasCameraInput::Blob(digest) => {
            if !c.pocket_camera {
                return Err(TasSpecialInputError::UndeclaredDevice);
            }
            match find_asset(assets, digest) {
                None => {
                    proof {
                        let av = assets_view(assets@);
                        assert forall|k: int| 0 <= k < av.len() implies (#[trigger] av[k]).digest != digest by {
                            assert(av[k] == assets@[k]@);
                        }
                    }
                    Err(TasSpecialInputError::MissingCameraAsset)
                },
                Some(k) => {
                    proof {
                        let av = assets_view(assets@);
                        assert(av[k as int] == assets@[k as int]@);
                        assert forall|j: int| 0 <= j < k implies (#[trigger] av[j]).digest != digest by {
                            assert(av[j] == assets@[j]@);
                        }
                        let c0 = choose|x: int|
                            0 <= x < av.len() && (#[trigger] av[x]).digest == digest
                                && forall|j: int| 0 <= j < x ==> (#[trigger] av[j]).digest != digest;
                        assert(c0 == k as int) by {
                            if c0 < k {
                                assert(av[c0].digest != digest);
                            } else if c0 > k {
                                assert(av[k as int].digest != digest);
                            }
                        }
                    }
                    if camera_asset_is_authorable(&assets[k].bytes) {
                        Ok(())
                    } else {
                        Err(TasSpecialInputError::CameraAssetSize)
                    }
                },
            }
        },
        TasCameraInput::NoFrame => Ok(()),
    }
}

} // verus!
