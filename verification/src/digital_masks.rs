//! Which standard-controller bits an edit may select, for the system and
//! players a project declares.
use vstd::prelude::*;

use crate::coleco_input::{is_coleco_system, spec_is_coleco_system};
use crate::identity::{IdentityModel, TasProjectIdentity};
use crate::input::{TasControllerInput, TasDigitalInputMask, TasDigitalTransform};
use crate::input_columns::{
    DigitalField, allowed_field_bits, applicable_player_count, digital_columns, field_bits,
    spec_applicable_player_count, spec_digital_columns,
};

verus! {

/// Why a control mask was refused.
#[derive(Clone, Copy, Debug, PartialEq, Eq, Structural)]
pub enum TasMaskError {
    /// ColecoVision controls are not standard-controller bits.
    ColecoEncoding,
    /// The mask selects a control or player the project does not declare.
    UndeclaredControl,
    /// The mask selects nothing.
    NoControls,
}

impl TasMaskError {
    /// The sentence shown for the error.
    pub open spec fn message_text(&self) -> Seq<char> {
        match self {
            TasMaskError::ColecoEncoding => "selected-control edits do not support ColecoVision control encoding"@,
            TasMaskError::UndeclaredControl => "the TAS project does not declare one of the selected controls"@,
            TasMaskError::NoControls => "check at least one control to edit"@,
        }
    }

    pub fn message(&self) -> (r: &'static str)
        ensures
            r@ == self.message_text(),
    {
        match self {
            TasMaskError::ColecoEncoding => "selected-control edits do not support ColecoVision control encoding",
            TasMaskError::UndeclaredControl => "the TAS project does not declare one of the selected controls",
            TasMaskError::NoControls => "check at least one control to edit",
        }
    }
}

/// Every control bit the system's columns own.
pub open spec fn spec_allowed_controls(system: Seq<char>) -> TasControllerInput {
    TasControllerInput {
        buttons: field_bits(spec_digital_columns(system), DigitalField::Buttons),
        dpad: field_bits(spec_digital_columns(system), DigitalField::Dpad),
    }
}

/// Every control bit the project's system shows as a column.
pub fn allowed_controls(identity: &TasProjectIdentity) -> (r: TasControllerInput)
    ensures
        r == spec_allowed_controls(identity@.system),
{
    let columns = digital_columns(identity.system.as_str());
    TasControllerInput {
        buttons: allowed_field_bits(&columns, DigitalField::Buttons),
        dpad: allowed_field_bits(&columns, DigitalField::Dpad),
    }
}

/// Whether the mask selects any control of any player.
pub open spec fn spec_has_controls(mask: TasDigitalInputMask) -> bool {
    exists|p: int| 0 <= p < 5 && ((#[trigger] mask.players[p]).buttons != 0 || mask.players[p].dpad != 0)
}

/// Whether the mask selects any control.
pub fn has_controls(mask: TasDigitalInputMask) -> (r: bool)
    ensures
        r == spec_has_controls(mask),
{
    let mut p: usize = 0;
    while p < 5
        invariant
            0 <= p <= 5,
            forall|q: int| 0 <= q < p ==> (#[trigger] mask.players[q]).buttons == 0 && mask.players[q].dpad == 0,
        decreases 5 - p,
    {
        if mask.players[p].buttons != 0 || mask.players[p].dpad != 0 {
            return true;
        }
        p += 1;
    }
    false
}

/// The label of a digital transform.
pub fn transform_label(transform: TasDigitalTransform) -> (r: &'static str)
    ensures
        r == match transform {
            TasDigitalTransform::Clear => "Clear",
            TasDigitalTransform::Invert => "Invert",
            TasDigitalTransform::Reverse => "Reverse",
        },
{
    match transform {
        TasDigitalTransform::Clear => "Clear",
        TasDigitalTransform::Invert => "Invert",
        TasDigitalTransform::Reverse => "Reverse",
    }
}

/// Whether player `p`'s part of the mask stays within what the project declares.
pub open spec fn player_mask_declared(identity: IdentityModel, mask: TasDigitalInputMask, p: int) -> bool {
    let allowed = spec_allowed_controls(identity.system);
    let m = mask.players[p];
    &&& p >= spec_applicable_player_count(identity.devices) ==> m == TasControllerInput::spec_neutral()
    &&& m.buttons & !allowed.buttons == 0
    &&& m.dpad & !allowed.dpad == 0
}

/// What `validate_mask` decides.
pub open spec fn spec_validate_mask(identity: IdentityModel, mask: TasDigitalInputMask) -> Result<(), TasMaskError> {
    if spec_is_coleco_system(identity.system) {
        Err(TasMaskError::ColecoEncoding)
    } else if !(forall|p: int| 0 <= p < 5 ==> #[trigger] player_mask_declared(identity, mask, p)) {
        Err(TasMaskError::UndeclaredControl)
    } else if !(exists|p: int| 0 <= p < 5 && ((#[trigger] mask.players[p]).buttons != 0 || mask.players[p].dpad != 0)) {
        Err(TasMaskError::NoControls)
    } else {
        Ok(())
    }
}

/// Accepts a mask that selects at least one declared control of a declared
/// player on a system with standard-controller columns.
pub fn validate_mask(identity: &TasProjectIdentity, mask: TasDigitalInputMask) -> (r: Result<(), TasMaskError>)
    ensures
        r == spec_validate_mask(identity@, mask),
{
    if is_coleco_system(identity.system.as_str()) {
        return Err(TasMaskError::ColecoEncoding);
    }
    let allowed = allowed_controls(identity);
    let players = applicable_player_count(identity);
    let neutral = TasControllerInput::neutral();
    let mut p: usize = 0;
    while p < 5
        invariant
            0 <= p <= 5,
            allowed == spec_allowed_controls(identity@.system),
            players == spec_applicable_player_count(identity@.devices),
            neutral == TasControllerInput::spec_neutral(),
            !spec_is_coleco_system(identity@.system),
            forall|q: int| 0 <= q < p ==> #[trigger] player_mask_declared(identity@, mask, q),
        decreases 5 - p,
    {
        let m = mask.players[p];
        if (p >= players && m != neutral) || m.buttons & !allowed.buttons != 0 || m.dpad & !allowed.dpad != 0 {
            proof {
                assert(!player_mask_declared(identity@, mask, p as int));
                assert(!spec_is_coleco_system(identity@.system));
                assert(!(forall|q: int| 0 <= q < 5 ==> #[trigger] player_mask_declared(identity@, mask, q)));
            }
            return Err(TasMaskError::UndeclaredControl);
        }
        p += 1;
    }
    if !has_controls(mask) {
        return Err(TasMaskError::NoControls);
    }
    Ok(())
}

} // verus!
