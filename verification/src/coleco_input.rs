//! ColecoVision hand-controller controls and keypad keys.
use vstd::prelude::*;

use crate::identity::TasProjectIdentity;
use crate::input::{TasColecoControllerInput, TasColecoKeypadKey};
use crate::text::str_eq;

verus! {

/// One directional or fire control of a ColecoVision hand controller.
#[derive(Clone, Copy, Debug, PartialEq, Eq, Structural)]
pub enum ColecoControl {
    Up,
    Right,
    Down,
    Left,
    LeftButton,
    RightButton,
}

/// The short label the timeline shows for a control.
pub fn coleco_control_label(control: ColecoControl) -> (r: &'static str)
    ensures
        r@ == spec_coleco_control_label(control)@,
{
    match control {
        ColecoControl::Up => "U",
        ColecoControl::Right => "R",
        ColecoControl::Down => "D",
        ColecoControl::Left => "L",
        ColecoControl::LeftButton => "L1",
        ColecoControl::RightButton => "R1",
    }
}

pub open spec fn spec_coleco_control_label(control: ColecoControl) -> &'static str {
    match control {
        ColecoControl::Up => "U",
        ColecoControl::Right => "R",
        ColecoControl::Down => "D",
        ColecoControl::Left => "L",
        ColecoControl::LeftButton => "L1",
        ColecoControl::RightButton => "R1",
    }
}

/// Whether a project identity names the ColecoVision system.
pub open spec fn spec_is_coleco_system(system: Seq<char>) -> bool {
    system == "coleco"@ || system == "colecovision"@
}

pub fn is_coleco_system(system: &str) -> (r: bool)
    ensures
        r == spec_is_coleco_system(system@),
{
    str_eq(system, "coleco") || str_eq(system, "colecovision")
}

/// Whether the project's controllers use the ColecoVision encoding.
pub fn is_coleco_project(identity: &TasProjectIdentity) -> (r: bool)
    ensures
        r == spec_is_coleco_system(identity.system@),
{
    is_coleco_system(identity.system.as_str())
}

pub open spec fn spec_control_pressed(input: TasColecoControllerInput, control: ColecoControl) -> bool {
    match control {
        ColecoControl::Up => input.up,
        ColecoControl::Right => input.right,
        ColecoControl::Down => input.down,
        ColecoControl::Left => input.left,
        ColecoControl::LeftButton => input.left_button,
        ColecoControl::RightButton => input.right_button,
    }
}

/// Whether `control` is held in `input`.
pub fn control_pressed(input: TasColecoControllerInput, control: ColecoControl) -> (r: bool)
    ensures
        r == spec_control_pressed(input, control),
{
    match control {
        ColecoControl::Up => input.up,
        ColecoControl::Right => input.right,
        ColecoControl::Down => input.down,
        ColecoControl::Left => input.left,
        ColecoControl::LeftButton => input.left_button,
        ColecoControl::RightButton => input.right_button,
    }
}

pub open spec fn spec_set_control(input: TasColecoControllerInput, control: ColecoControl, pressed: bool) -> TasColecoControllerInput {
    match control {
        ColecoControl::Up => TasColecoControllerInput { up: pressed, ..input },
        ColecoControl::Right => TasColecoControllerInput { right: pressed, ..input },
        ColecoControl::Down => TasColecoControllerInput { down: pressed, ..input },
        ColecoControl::Left => TasColecoControllerInput { left: pressed, ..input },
        ColecoControl::LeftButton => TasColecoControllerInput { left_button: pressed, ..input },
        ColecoControl::RightButton => TasColecoControllerInput { right_button: pressed, ..input },
    }
}

/// Sets `control` to `pressed`, leaving every other control and the keypad alone.
pub fn set_control(input: &mut TasColecoControllerInput, control: ColecoControl, pressed: bool)
    ensures
        *final(input) == spec_set_control(*old(input), control, pressed),
{
    match control {
        ColecoControl::Up => input.up = pressed,
        ColecoControl::Right => input.right = pressed,
        ColecoControl::Down => input.down = pressed,
        ColecoControl::Left => input.left = pressed,
        ColecoControl::LeftButton => input.left_button = pressed,
        ColecoControl::RightButton => input.right_button = pressed,
    }
}

/// Setting a control reads back what was set, leaves the other controls and
/// the keypad alone, and setting it back to its old value restores the
/// controller exactly.
pub proof fn law_set_control_round_trip(input: TasColecoControllerInput, control: ColecoControl, pressed: bool)
    ensures
        spec_control_pressed(spec_set_control(input, control, pressed), control) == pressed,
        forall|other: ColecoControl|
            other != control ==> spec_control_pressed(spec_set_control(input, control, pressed), other)
                == spec_control_pressed(input, other),
        spec_set_control(input, control, pressed).keypad == input.keypad,
        spec_set_control(
            spec_set_control(input, control, pressed),
            control,
            spec_control_pressed(input, control),
        ) == input,
{
}

pub open spec fn spec_keypad_label(key: TasColecoKeypadKey) -> &'static str {
    match key {
        TasColecoKeypadKey::NoKey => "—",
        TasColecoKeypadKey::Zero => "0",
        TasColecoKeypadKey::One => "1",
        TasColecoKeypadKey::Two => "2",
        TasColecoKeypadKey::Three => "3",
        TasColecoKeypadKey::Four => "4",
        TasColecoKeypadKey::Five => "5",
        TasColecoKeypadKey::Six => "6",
        TasColecoKeypadKey::Seven => "7",
        TasColecoKeypadKey::Eight => "8",
        TasColecoKeypadKey::Nine => "9",
        TasColecoKeypadKey::Star => "*",
        TasColecoKeypadKey::Pound => "#",
    }
}

/// The label of a keypad key.
pub fn keypad_label(key: TasColecoKeypadKey) -> (r: &'static str)
    ensures
        r@ == spec_keypad_label(key)@,
{
    match key {
        TasColecoKeypadKey::NoKey => "—",
        TasColecoKeypadKey::Zero => "0",
        TasColecoKeypadKey::One => "1",
        TasColecoKeypadKey::Two => "2",
        TasColecoKeypadKey::Three => "3",
        TasColecoKeypadKey::Four => "4",
        TasColecoKeypadKey::Five => "5",
        TasColecoKeypadKey::Six => "6",
        TasColecoKeypadKey::Seven => "7",
        TasColecoKeypadKey::Eight => "8",
        TasColecoKeypadKey::Nine => "9",
        TasColecoKeypadKey::Star => "*",
        TasColecoKeypadKey::Pound => "#",
    }
}

/// The keypad keys in the order the editor offers them.
pub fn coleco_keypad_keys() -> (r: Vec<TasColecoKeypadKey>)
    ensures
        r@ == seq![
            TasColecoKeypadKey::NoKey,
            TasColecoKeypadKey::Zero,
            TasColecoKeypadKey::One,
            TasColecoKeypadKey::Two,
            TasColecoKeypadKey::Three,
            TasColecoKeypadKey::Four,
            TasColecoKeypadKey::Five,
            TasColecoKeypadKey::Six,
            TasColecoKeypadKey::Seven,
            TasColecoKeypadKey::Eight,
            TasColecoKeypadKey::Nine,
            TasColecoKeypadKey::Star,
            TasColecoKeypadKey::Pound,
        ],
{
    let r = vec![
        TasColecoKeypadKey::NoKey,
        TasColecoKeypadKey::Zero,
        TasColecoKeypadKey::One,
        TasColecoKeypadKey::Two,
        TasColecoKeypadKey::Three,
        TasColecoKeypadKey::Four,
        TasColecoKeypadKey::Five,
        TasColecoKeypadKey::Six,
        TasColecoKeypadKey::Seven,
        TasColecoKeypadKey::Eight,
        TasColecoKeypadKey::Nine,
        TasColecoKeypadKey::Star,
        TasColecoKeypadKey::Pound,
    ];
    proof {
        assert(r@ =~= seq![
            TasColecoKeypadKey::NoKey,
            TasColecoKeypadKey::Zero,
            TasColecoKeypadKey::One,
            TasColecoKeypadKey::Two,
            TasColecoKeypadKey::Three,
            TasColecoKeypadKey::Four,
            TasColecoKeypadKey::Five,
            TasColecoKeypadKey::Six,
            TasColecoKeypadKey::Seven,
            TasColecoKeypadKey::Eight,
            TasColecoKeypadKey::Nine,
            TasColecoKeypadKey::Star,
            TasColecoKeypadKey::Pound,
        ]);
    }
    r
}

/// The six controls in the order the timeline shows them.
pub fn coleco_controls() -> (r: Vec<ColecoControl>)
    ensures
        r@ == seq![
            ColecoControl::Up,
            ColecoControl::Right,
            ColecoControl::Down,
            ColecoControl::Left,
            ColecoControl::LeftButton,
            ColecoControl::RightButton,
        ],
{
    let r = vec![
        ColecoControl::Up,
        ColecoControl::Right,
        ColecoControl::Down,
        ColecoControl::Left,
        ColecoControl::LeftButton,
        ColecoControl::RightButton,
    ];
    proof {
        assert(r@ =~= seq![
            ColecoControl::Up,
            ColecoControl::Right,
            ColecoControl::Down,
            ColecoControl::Left,
            ColecoControl::LeftButton,
            ColecoControl::RightButton,
        ]);
    }
    r
}

} // verus!
