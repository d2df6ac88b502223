//! The settings the editing panels keep between frames (autofire, selected
//! control edits, special-input transforms), and how each is brought back in
//! line with the open project before it is shown.
use vstd::prelude::*;

use crate::digital_masks::{allowed_controls, spec_allowed_controls};
use crate::identity::TasProjectIdentity;
use crate::input::{
    TasControllerInput, TasDigitalInputMask, TasDigitalTransform, TasSpecialInputMask, TasSpecialTransform,
};
use crate::input_columns::{applicable_player_count, digital_columns, spec_applicable_player_count, spec_digital_columns};
use crate::special_input::TasSpecialInputCapabilities;

verus! {

/// The autofire panel's choices: which player and column, and the cycle.
#[derive(Clone, Copy, Debug, PartialEq, Eq, Structural)]
pub struct TasDigitalAutofireUiState {
    pub player: usize,
    pub column: usize,
    pub period: u8,
    pub on_frames: u8,
}

/// `value`, but at most `bound - 1` (and 0 when `bound` is 0).
pub open spec fn spec_clamp_index(value: int, bound: int) -> int {
    if bound == 0 { 0 } else if value < bound { value } else { bound - 1 }
}

impl TasDigitalAutofireUiState {
    /// Player 1, the fifth column, one frame on in a two-frame cycle.
    pub fn new() -> (r: Self)
        ensures
            r == (TasDigitalAutofireUiState { player: 0, column: 4, period: 2, on_frames: 1 }),
    {
        TasDigitalAutofireUiState { player: 0, column: 4, period: 2, on_frames: 1 }
    }

    /// Keeps the choices within the project's players and columns, the period
    /// within 1..=60 and the pressed frames within the period.
    pub fn restrict_to(&mut self, identity: &TasProjectIdentity)
        ensures
            final(self).player == spec_clamp_index(old(self).player as int, spec_applicable_player_count(identity@.devices) as int),
            final(self).column == spec_clamp_index(old(self).column as int, spec_digital_columns(identity@.system).len() as int),
            final(self).period == if old(self).period < 1 { 1 } else if old(self).period > 60 { 60 } else { old(self).period },
            final(self).on_frames == if old(self).on_frames <= final(self).period { old(self).on_frames } else { final(self).period },
    {
        let players = applicable_player_count(identity);
        let columns = digital_columns(identity.system.as_str()).len();
        if self.player >= players {
            self.player = players - 1;
        }
        if columns == 0 {
            self.column = 0;
        } else if self.column >= columns {
            self.column = columns - 1;
        }
        if self.period < 1 {
            self.period = 1;
        } else if self.period > 60 {
            self.period = 60;
        }
        if self.on_frames > self.period {
            self.on_frames = self.period;
        }
    }
}

/// The selected-controls panel's choices: the checked controls of each
/// player, the edit, and the player being shown.
#[derive(Clone, Copy, Debug, PartialEq, Eq)]
pub struct TasDigitalTransformUiState {
    pub mask: TasDigitalInputMask,
    pub transform: TasDigitalTransform,
    pub player: usize,
}

/// `c` with only the controls `allowed` has.
pub open spec fn spec_restrict_controls(c: TasControllerInput, allowed: TasControllerInput) -> TasControllerInput {
    TasControllerInput { buttons: c.buttons & allowed.buttons, dpad: c.dpad & allowed.dpad }
}

impl TasDigitalTransformUiState {
    /// Player 1's first button checked, clearing.
    pub fn new() -> (r: Self)
        ensures
            r.transform == TasDigitalTransform::Clear,
            r.player == 0,
            r.mask.players[0] == (TasControllerInput { buttons: 1, dpad: 0 }),
            forall|p: int| 1 <= p < 5 ==> #[trigger] r.mask.players[p] == TasControllerInput::spec_neutral(),
    {
        let mut mask = TasDigitalInputMask::empty();
        mask.players[0] = TasControllerInput { buttons: 1, dpad: 0 };
        TasDigitalTransformUiState { mask, transform: TasDigitalTransform::Clear, player: 0 }
    }

    /// Unchecks the controls the project's system does not show and every
    /// control of players it does not declare, and shows a declared player.
    pub fn restrict_to(&mut self, identity: &TasProjectIdentity)
        ensures
            final(self).transform == old(self).transform,
            final(self).player == spec_clamp_index(old(self).player as int, spec_applicable_player_count(identity@.devices) as int),
            forall|p: int| 0 <= p < 5 ==> #[trigger] final(self).mask.players[p] == if p < spec_applicable_player_count(identity@.devices) {
                spec_restrict_controls(old(self).mask.players[p], spec_allowed_controls(identity@.system))
            } else {
                TasControllerInput::spec_neutral()
            },
    {
        let players = applicable_player_count(identity);
        let allowed = allowed_controls(identity);
        let ghost before = self.mask;
        let ghost transform = self.transform;
        let ghost player = self.player;
        let mut p: usize = 0;
        while p < 5
            invariant
                0 <= p <= 5,
                players == spec_applicable_player_count(identity@.devices),
                allowed == spec_allowed_controls(identity@.system),
                self.transform == transform,
                self.player == player,
                forall|q: int| p <= q < 5 ==> #[trigger] self.mask.players[q] == before.players[q],
                forall|q: int| 0 <= q < p ==> #[trigger] self.mask.players[q] == if q < players {
                    spec_restrict_controls(before.players[q], allowed)
                } else {
                    TasControllerInput::spec_neutral()
                },
            decreases 5 - p,
        {
            let c = self.mask.players[p];
            if p < players {
                self.mask.players[p] = TasControllerInput { buttons: c.buttons & allowed.buttons, dpad: c.dpad & allowed.dpad };
            } else {
                self.mask.players[p] = TasControllerInput::neutral();
            }
            p += 1;
        }
        if self.player >= players {
            self.player = players - 1;
        }
    }
}

/// The special-transform panel's choices: the checked channels and the edit.
#[derive(Clone, Copy, Debug, PartialEq, Eq, Structural)]
pub struct TasSpecialTransformUiState {
    pub mask: TasSpecialInputMask,
    pub transform: TasSpecialTransform,
}

impl TasSpecialTransformUiState {
    /// No channel checked, clearing.
    pub fn new() -> (r: Self)
        ensures
            r == (TasSpecialTransformUiState {
                mask: TasSpecialInputMask { zapper: false, tilt_x: false, tilt_y: false, camera: false },
                transform: TasSpecialTransform::Clear,
            }),
    {
        TasSpecialTransformUiState {
            mask: TasSpecialInputMask { zapper: false, tilt_x: false, tilt_y: false, camera: false },
            transform: TasSpecialTransform::Clear,
        }
    }
}

/// Unchecks the channels the project cannot record.
pub fn sanitize_mask(mask: &mut TasSpecialInputMask, capabilities: TasSpecialInputCapabilities)
    ensures
        final(mask).zapper == (old(mask).zapper && capabilities.nes_zapper),
        final(mask).tilt_x == (old(mask).tilt_x && (capabilities.mbc7_tilt || capabilities.gba_tilt)),
        final(mask).tilt_y == (old(mask).tilt_y && (capabilities.mbc7_tilt || capabilities.gba_tilt)),
        final(mask).camera == (old(mask).camera && capabilities.pocket_camera),
{
    if !capabilities.nes_zapper {
        mask.zapper = false;
    }
    if !capabilities.mbc7_tilt && !capabilities.gba_tilt {
        mask.tilt_x = false;
        mask.tilt_y = false;
    }
    if !capabilities.pocket_camera {
        mask.camera = false;
    }
}

/// Whether the project records any special input channel.
pub fn has_special_capability(capabilities: TasSpecialInputCapabilities) -> (r: bool)
    ensures
        r == (capabilities.nes_zapper || capabilities.mbc7_tilt || capabilities.gba_tilt || capabilities.pocket_camera),
{
    capabilities.nes_zapper || capabilities.mbc7_tilt || capabilities.gba_tilt || capabilities.pocket_camera
}

/// Whether no channel is checked.
pub fn mask_is_empty(mask: TasSpecialInputMask) -> (r: bool)
    ensures
        r == (!mask.zapper && !mask.tilt_x && !mask.tilt_y && !mask.camera),
{
    !mask.zapper && !mask.tilt_x && !mask.tilt_y && !mask.camera
}

} // verus!
