//! One movie frame of recorded input and the masks that select parts of it.
use vstd::prelude::*;

use crate::text::{hex, push_hex};

verus! {

/// Number of standard controller ports a frame records.
pub const PLAYER_PORTS: usize = 5;

/// An opaque 64-bit content witness: two witnesses are equal only when they
/// stand for the same content.
#[derive(Clone, Copy, Debug, PartialEq, Eq, Structural)]
pub struct TasDigest(pub u64);

impl TasDigest {
    /// Sixteen upper-case hexadecimal digits.
    pub fn to_hex(&self) -> (r: String)
        ensures
            r@ == hex(self.0 as nat, 16),
    {
        let mut s = String::new();
        push_hex(&mut s, self.0, 16);
        proof {
            assert(s@ =~= hex(self.0 as nat, 16));
        }
        s
    }
}

/// Buttons and directions of one standard controller, one bit per control.
#[derive(Clone, Copy, Debug, PartialEq, Eq, Structural)]
pub struct TasControllerInput {
    pub buttons: u8,
    pub dpad: u8,
}

impl TasControllerInput {
    pub open spec fn spec_neutral() -> Self {
        TasControllerInput { buttons: 0, dpad: 0 }
    }

    pub fn neutral() -> (r: Self)
        ensures
            r == Self::spec_neutral(),
    {
        TasControllerInput { buttons: 0, dpad: 0 }
    }
}

impl Default for TasControllerInput {
    fn default() -> (r: Self)
        ensures
            r == Self::spec_neutral(),
    {
        Self::neutral()
    }
}

/// The key held on a ColecoVision keypad, if any.
#[derive(Clone, Copy, Debug, PartialEq, Eq, Structural)]
pub enum TasColecoKeypadKey {
    NoKey,
    Zero,
    One,
    Two,
    Three,
    Four,
    Five,
    Six,
    Seven,
    Eight,
    Nine,
    Star,
    Pound,
}

/// One ColecoVision hand controller.
#[derive(Clone, Copy, Debug, PartialEq, Eq, Structural)]
pub struct TasColecoControllerInput {
    pub up: bool,
    pub right: bool,
    pub down: bool,
    pub left: bool,
    pub left_button: bool,
    pub right_button: bool,
    pub keypad: TasColecoKeypadKey,
}

impl TasColecoControllerInput {
    pub open spec fn spec_neutral() -> Self {
        TasColecoControllerInput {
            up: false,
            right: false,
            down: false,
            left: false,
            left_button: false,
            right_button: false,
            keypad: TasColecoKeypadKey::NoKey,
        }
    }

    pub fn neutral() -> (r: Self)
        ensures
            r == Self::spec_neutral(),
    {
        TasColecoControllerInput {
            up: false,
            right: false,
            down: false,
            left: false,
            left_button: false,
            right_button: false,
            keypad: TasColecoKeypadKey::NoKey,
        }
    }
}

impl Default for TasColecoControllerInput {
    fn default() -> (r: Self)
        ensures
            r == Self::spec_neutral(),
    {
        Self::neutral()
    }
}

/// A raw screen position recorded by a light gun.
#[derive(Clone, Copy, Debug, PartialEq, Eq, Structural)]
pub struct TasScreenPos {
    pub x: u16,
    pub y: u16,
}

/// Recorded NES Zapper light-gun state.
#[derive(Clone, Copy, Debug, PartialEq, Eq, Structural)]
pub struct TasZapperInput {
    pub enabled: bool,
    pub trigger: bool,
    pub hit: bool,
    pub screen_pos: Option<TasScreenPos>,
}

impl TasZapperInput {
    pub open spec fn spec_neutral() -> Self {
        TasZapperInput { enabled: false, trigger: false, hit: false, screen_pos: None }
    }

    pub fn neutral() -> (r: Self)
        ensures
            r == Self::spec_neutral(),
    {
        TasZapperInput { enabled: false, trigger: false, hit: false, screen_pos: None }
    }
}

impl Default for TasZapperInput {
    fn default() -> (r: Self)
        ensures
            r == Self::spec_neutral(),
    {
        Self::neutral()
    }
}

/// A recorded Pocket Camera frame: nothing, or a project asset.
#[derive(Clone, Copy, Debug, PartialEq, Eq, Structural)]
pub enum TasCameraInput {
    NoFrame,
    Blob(TasDigest),
}

/// All input recorded for one movie frame.
#[derive(Clone, Copy, Debug, PartialEq, Eq)]
pub struct TasInputFrame {
    pub players: [TasControllerInput; 5],
    pub coleco: [TasColecoControllerInput; 2],
    pub zapper: TasZapperInput,
    pub tilt_x_bits: u32,
    pub tilt_y_bits: u32,
    pub camera: TasCameraInput,
}

/// The frame in which nothing is pressed and no special input is recorded.
pub open spec fn neutral_frame() -> TasInputFrame {
    TasInputFrame {
        players: [TasControllerInput::spec_neutral(), TasControllerInput::spec_neutral(), TasControllerInput::spec_neutral(), TasControllerInput::spec_neutral(), TasControllerInput::spec_neutral()],
        coleco: [TasColecoControllerInput::spec_neutral(), TasColecoControllerInput::spec_neutral()],
        zapper: TasZapperInput::spec_neutral(),
        tilt_x_bits: 0,
        tilt_y_bits: 0,
        camera: TasCameraInput::NoFrame,
    }
}

impl TasInputFrame {
    pub fn neutral() -> (r: Self)
        ensures
            r == neutral_frame(),
    {
        let p = TasControllerInput::neutral();
        let c = TasColecoControllerInput::neutral();
        TasInputFrame {
            players: [p, p, p, p, p],
            coleco: [c, c],
            zapper: TasZapperInput::neutral(),
            tilt_x_bits: 0,
            tilt_y_bits: 0,
            camera: TasCameraInput::NoFrame,
        }
    }

    /// Whether `self` records nothing.
    pub fn is_neutral(&self) -> (r: bool)
        ensures
            r == (*self == neutral_frame()),
    {
        frame_eq(self, &Self::neutral())
    }
}

impl Default for TasInputFrame {
    fn default() -> (r: Self)
        ensures
            r == neutral_frame(),
    {
        Self::neutral()
    }
}

/// Whether two frames record the same input.
pub fn frame_eq(a: &TasInputFrame, b: &TasInputFrame) -> (r: bool)
    ensures
        r == (*a == *b),
{
    let mut i: usize = 0;
    while i < 5
        invariant
            0 <= i <= 5,
            forall|j: int| 0 <= j < i ==> a.players@[j] == b.players@[j],
        decreases 5 - i,
    {
        if a.players[i] != b.players[i] {
            return false;
        }
        i += 1;
    }
    if a.coleco[0] != b.coleco[0] || a.coleco[1] != b.coleco[1] {
        return false;
    }
    proof {
        assert(a.players =~= b.players);
        assert(a.coleco =~= b.coleco);
    }
    a.zapper == b.zapper && a.tilt_x_bits == b.tilt_x_bits && a.tilt_y_bits == b.tilt_y_bits
        && a.camera == b.camera
}

/// Which standard-controller bits of each player an edit touches.
#[derive(Clone, Copy, Debug, PartialEq, Eq)]
pub struct TasDigitalInputMask {
    pub players: [TasControllerInput; 5],
}

impl TasDigitalInputMask {
    pub open spec fn spec_empty() -> Self {
        TasDigitalInputMask { players: [TasControllerInput::spec_neutral(), TasControllerInput::spec_neutral(), TasControllerInput::spec_neutral(), TasControllerInput::spec_neutral(), TasControllerInput::spec_neutral()] }
    }

    pub fn empty() -> (r: Self)
        ensures
            r == Self::spec_empty(),
    {
        let p = TasControllerInput::neutral();
        TasDigitalInputMask { players: [p, p, p, p, p] }
    }
}

impl Default for TasDigitalInputMask {
    fn default() -> (r: Self)
        ensures
            r == Self::spec_empty(),
    {
        Self::empty()
    }
}

/// Which recorded special-input channels an edit touches.
#[derive(Clone, Copy, Debug, PartialEq, Eq, Structural)]
pub struct TasSpecialInputMask {
    pub zapper: bool,
    pub tilt_x: bool,
    pub tilt_y: bool,
    pub camera: bool,
}

impl Default for TasSpecialInputMask {
    fn default() -> (r: Self)
        ensures
            r == (TasSpecialInputMask { zapper: false, tilt_x: false, tilt_y: false, camera: false }),
    {
        TasSpecialInputMask { zapper: false, tilt_x: false, tilt_y: false, camera: false }
    }
}

/// Range edits of standard-controller bits.
#[derive(Clone, Copy, Debug, PartialEq, Eq, Structural)]
pub enum TasDigitalTransform {
    /// Release the masked controls.
    Clear,
    /// Swap pressed and released for the masked controls.
    Invert,
    /// Play the masked controls backwards within the range.
    Reverse,
}

/// Range edits of recorded special input.
#[derive(Clone, Copy, Debug, PartialEq, Eq, Structural)]
pub enum TasSpecialTransform {
    /// Zero the masked axes and remove the masked Zapper and Camera values.
    Clear,
    /// Play the masked channels backwards within the range.
    Reverse,
}

} // verus!
