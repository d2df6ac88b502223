//! The digital input columns the timeline shows for each system, and the
//! players a project declares.
use vstd::prelude::*;

use crate::identity::{DeviceModel, TasProjectIdentity};
use crate::text::str_eq;

verus! {

/// Which byte of a standard controller a column edits.
#[derive(Clone, Copy, Debug, PartialEq, Eq, Structural)]
pub enum DigitalField {
    Buttons,
    Dpad,
}

/// One editable digital control: a label and the single bit it owns.
#[derive(Clone, Copy, Debug, PartialEq, Eq)]
pub struct DigitalColumn {
    pub label: &'static str,
    pub field: DigitalField,
    pub mask: u8,
}

pub open spec fn column(label: &'static str, field: DigitalField, bit: nat) -> DigitalColumn {
    DigitalColumn { label, field, mask: (1u8 << bit) as u8 }
}

pub open spec fn spec_direction_columns() -> Seq<DigitalColumn> {
    seq![
        DigitalColumn { label: "R", field: DigitalField::Dpad, mask: 1 },
        DigitalColumn { label: "L", field: DigitalField::Dpad, mask: 2 },
        DigitalColumn { label: "U", field: DigitalField::Dpad, mask: 4 },
        DigitalColumn { label: "D", field: DigitalField::Dpad, mask: 8 },
    ]
}

pub open spec fn spec_wonderswan_columns() -> Seq<DigitalColumn> {
    seq![
        DigitalColumn { label: "X1", field: DigitalField::Dpad, mask: 1 },
        DigitalColumn { label: "X2", field: DigitalField::Dpad, mask: 2 },
        DigitalColumn { label: "X3", field: DigitalField::Dpad, mask: 4 },
        DigitalColumn { label: "X4", field: DigitalField::Dpad, mask: 8 },
        DigitalColumn { label: "A", field: DigitalField::Buttons, mask: 1 },
        DigitalColumn { label: "B", field: DigitalField::Buttons, mask: 2 },
        DigitalColumn { label: "St", field: DigitalField::Buttons, mask: 8 },
        DigitalColumn { label: "Y1", field: DigitalField::Buttons, mask: 16 },
        DigitalColumn { label: "Y2", field: DigitalField::Buttons, mask: 32 },
        DigitalColumn { label: "Y3", field: DigitalField::Buttons, mask: 64 },
        DigitalColumn { label: "Y4", field: DigitalField::Buttons, mask: 128 },
    ]
}

pub open spec fn spec_raw_digital_columns() -> Seq<DigitalColumn> {
    seq![
        DigitalColumn { label: "D0", field: DigitalField::Dpad, mask: 1 },
        DigitalColumn { label: "D1", field: DigitalField::Dpad, mask: 2 },
        DigitalColumn { label: "D2", field: DigitalField::Dpad, mask: 4 },
        DigitalColumn { label: "D3", field: DigitalField::Dpad, mask: 8 },
        DigitalColumn { label: "D4", field: DigitalField::Dpad, mask: 16 },
        DigitalColumn { label: "D5", field: DigitalField::Dpad, mask: 32 },
        DigitalColumn { label: "D6", field: DigitalField::Dpad, mask: 64 },
        DigitalColumn { label: "D7", field: DigitalField::Dpad, mask: 128 },
        DigitalColumn { label: "B0", field: DigitalField::Buttons, mask: 1 },
        DigitalColumn { label: "B1", field: DigitalField::Buttons, mask: 2 },
        DigitalColumn { label: "B2", field: DigitalField::Buttons, mask: 4 },
        DigitalColumn { label: "B3", field: DigitalField::Buttons, mask: 8 },
        DigitalColumn { label: "B4", field: DigitalField::Buttons, mask: 16 },
        DigitalColumn { label: "B5", field: DigitalField::Buttons, mask: 32 },
        DigitalColumn { label: "B6", field: DigitalField::Buttons, mask: 64 },
        DigitalColumn { label: "B7", field: DigitalField::Buttons, mask: 128 },
    ]
}

pub open spec fn spec_is_four_button_system(system: Seq<char>) -> bool {
    system == "gb"@ || system == "game_boy"@ || system == "nes"@
}

pub open spec fn spec_is_sega_two_button_system(system: Seq<char>) -> bool {
    system == "sms"@ || system == "master_system"@ || system == "sg"@ || system == "sg1000"@
        || system == "sg-1000"@
}

pub open spec fn spec_is_game_gear(system: Seq<char>) -> bool {
    system == "gg"@ || system == "game_gear"@
}

pub open spec fn spec_is_wonderswan(system: Seq<char>) -> bool {
    system == "ws"@ || system == "wonderswan"@
}

pub open spec fn spec_is_gba(system: Seq<char>) -> bool {
    system == "gba"@ || system == "game_boy_advance"@
}

pub open spec fn spec_is_pc_engine(system: Seq<char>) -> bool {
    system == "pce"@ || system == "pc_engine"@
}

/// The columns of `system`, in display order.
pub open spec fn spec_digital_columns(system: Seq<char>) -> Seq<DigitalColumn> {
    if spec_is_four_button_system(system) {
        spec_direction_columns() + seq![
            DigitalColumn { label: "A", field: DigitalField::Buttons, mask: 1 },
            DigitalColumn { label: "B", field: DigitalField::Buttons, mask: 2 },
            DigitalColumn { label: "Sel", field: DigitalField::Buttons, mask: 4 },
            DigitalColumn { label: "St", field: DigitalField::Buttons, mask: 8 },
        ]
    } else if spec_is_sega_two_button_system(system) {
        spec_direction_columns() + seq![
            DigitalColumn { label: "1", field: DigitalField::Buttons, mask: 1 },
            DigitalColumn { label: "2", field: DigitalField::Buttons, mask: 2 },
        ]
    } else if spec_is_game_gear(system) {
        spec_direction_columns() + seq![
            DigitalColumn { label: "1", field: DigitalField::Buttons, mask: 1 },
            DigitalColumn { label: "2", field: DigitalField::Buttons, mask: 2 },
            DigitalColumn { label: "St", field: DigitalField::Buttons, mask: 8 },
        ]
    } else if spec_is_wonderswan(system) {
        spec_wonderswan_columns()
    } else if spec_is_gba(system) {
        spec_direction_columns() + seq![
            DigitalColumn { label: "A", field: DigitalField::Buttons, mask: 1 },
            DigitalColumn { label: "B", field: DigitalField::Buttons, mask: 2 },
            DigitalColumn { label: "Sel", field: DigitalField::Buttons, mask: 4 },
            DigitalColumn { label: "St", field: DigitalField::Buttons, mask: 8 },
            DigitalColumn { label: "L", field: DigitalField::Buttons, mask: 16 },
            DigitalColumn { label: "R", field: DigitalField::Buttons, mask: 32 },
        ]
    } else if spec_is_pc_engine(system) {
        spec_direction_columns() + seq![
            DigitalColumn { label: "I", field: DigitalField::Buttons, mask: 1 },
            DigitalColumn { label: "II", field: DigitalField::Buttons, mask: 2 },
            DigitalColumn { label: "Sel", field: DigitalField::Buttons, mask: 4 },
            DigitalColumn { label: "Run", field: DigitalField::Buttons, mask: 8 },
            DigitalColumn { label: "III", field: DigitalField::Buttons, mask: 16 },
            DigitalColumn { label: "IV", field: DigitalField::Buttons, mask: 32 },
            DigitalColumn { label: "V", field: DigitalField::Buttons, mask: 64 },
            DigitalColumn { label: "VI", field: DigitalField::Buttons, mask: 128 },
        ]
    } else {
        spec_raw_digital_columns()
    }
}

fn push_col(v: &mut Vec<DigitalColumn>, label: &'static str, field: DigitalField, mask: u8)
    ensures
        final(v)@ == old(v)@.push(DigitalColumn { label, field, mask }),
{
    v.push(DigitalColumn { label, field, mask });
}

/// The four direction columns shared by most pads.
pub fn direction_columns() -> (r: Vec<DigitalColumn>)
    ensures
        r@ == spec_direction_columns(),
{
    let mut v = Vec::new();
    push_col(&mut v, "R", DigitalField::Dpad, 1);
    push_col(&mut v, "L", DigitalField::Dpad, 2);
    push_col(&mut v, "U", DigitalField::Dpad, 4);
    push_col(&mut v, "D", DigitalField::Dpad, 8);
    proof {
        assert(v@ =~= spec_direction_columns());
    }
    v
}

/// The WonderSwan X pad, Y pad and action buttons.
pub fn wonderswan_columns() -> (r: Vec<DigitalColumn>)
    ensures
        r@ == spec_wonderswan_columns(),
{
    let mut v = Vec::new();
    push_col(&mut v, "X1", DigitalField::Dpad, 1);
    push_col(&mut v, "X2", DigitalField::Dpad, 2);
    push_col(&mut v, "X3", DigitalField::Dpad, 4);
    push_col(&mut v, "X4", DigitalField::Dpad, 8);
    push_col(&mut v, "A", DigitalField::Buttons, 1);
    push_col(&mut v, "B", DigitalField::Buttons, 2);
    push_col(&mut v, "St", DigitalField::Buttons, 8);
    push_col(&mut v, "Y1", DigitalField::Buttons, 16);
    push_col(&mut v, "Y2", DigitalField::Buttons, 32);
    push_col(&mut v, "Y3", DigitalField::Buttons, 64);
    push_col(&mut v, "Y4", DigitalField::Buttons, 128);
    proof {
        assert(v@ =~= spec_wonderswan_columns());
    }
    v
}

/// All sixteen bits under raw labels, for systems whose pad is not known.
pub fn raw_digital_columns() -> (r: Vec<DigitalColumn>)
    ensures
        r@ == spec_raw_digital_columns(),
{
    let mut v = Vec::new();
    push_col(&mut v, "D0", DigitalField::Dpad, 1);
    push_col(&mut v, "D1", DigitalField::Dpad, 2);
    push_col(&mut v, "D2", DigitalField::Dpad, 4);
    push_col(&mut v, "D3", DigitalField::Dpad, 8);
    push_col(&mut v, "D4", DigitalField::Dpad, 16);
    push_col(&mut v, "D5", DigitalField::Dpad, 32);
    push_col(&mut v, "D6", DigitalField::Dpad, 64);
    push_col(&mut v, "D7", DigitalField::Dpad, 128);
    push_col(&mut v, "B0", DigitalField::Buttons, 1);
    push_col(&mut v, "B1", DigitalField::Buttons, 2);
    push_col(&mut v, "B2", DigitalField::Buttons, 4);
    push_col(&mut v, "B3", DigitalField::Buttons, 8);
    push_col(&mut v, "B4", DigitalField::Buttons, 16);
    push_col(&mut v, "B5", DigitalField::Buttons, 32);
    push_col(&mut v, "B6", DigitalField::Buttons, 64);
    push_col(&mut v, "B7", DigitalField::Buttons, 128);
    proof {
        assert(v@ =~= spec_raw_digital_columns());
    }
    v
}

/// Button columns with the given labels and bit masks, in order.
pub fn button_columns(columns: &[(&'static str, u8)]) -> (r: Vec<DigitalColumn>)
    ensures
        r@.len() == columns@.len(),
        forall|k: int|
            0 <= k < columns@.len() ==> #[trigger] r@[k] == (DigitalColumn {
                label: columns@[k].0,
                field: DigitalField::Buttons,
                mask: columns@[k].1,
            }),
{
    let mut v: Vec<DigitalColumn> = Vec::new();
    let mut i: usize = 0;
    while i < columns.len()
        invariant
            0 <= i <= columns@.len(),
            v@.len() == i,
            forall|k: int|
                0 <= k < i ==> #[trigger] v@[k] == (DigitalColumn {
                    label: columns@[k].0,
                    field: DigitalField::Buttons,
                    mask: columns@[k].1,
                }),
        decreases columns@.len() - i,
    {
        let (label, mask) = columns[i];
        v.push(DigitalColumn { label, field: DigitalField::Buttons, mask });
        i += 1;
    }
    v
}

/// The digital columns the timeline offers for `system`.
pub fn digital_columns(system: &str) -> (r: Vec<DigitalColumn>)
    ensures
        r@ == spec_digital_columns(system@),
{
    if str_eq(system, "gb") || str_eq(system, "game_boy") || str_eq(system, "nes") {
        let mut v = direction_columns();
        push_col(&mut v, "A", DigitalField::Buttons, 1);
        push_col(&mut v, "B", DigitalField::Buttons, 2);
        push_col(&mut v, "Sel", DigitalField::Buttons, 4);
        push_col(&mut v, "St", DigitalField::Buttons, 8);
        proof {
            assert(v@ =~= spec_digital_columns(system@));
        }
        v
    } else if str_eq(system, "sms") || str_eq(system, "master_system") || str_eq(system, "sg")
        || str_eq(system, "sg1000") || str_eq(system, "sg-1000") {
        let mut v = direction_columns();
        push_col(&mut v, "1", DigitalField::Buttons, 1);
        push_col(&mut v, "2", DigitalField::Buttons, 2);
        proof {
            assert(v@ =~= spec_digital_columns(system@));
        }
        v
    } else if str_eq(system, "gg") || str_eq(system, "game_gear") {
        let mut v = direction_columns();
        push_col(&mut v, "1", DigitalField::Buttons, 1);
        push_col(&mut v, "2", DigitalField::Buttons, 2);
        push_col(&mut v, "St", DigitalField::Buttons, 8);
        proof {
            assert(v@ =~= spec_digital_columns(system@));
        }
        v
    } else if str_eq(system, "ws") || str_eq(system, "wonderswan") {
        wonderswan_columns()
    } else if str_eq(system, "gba") || str_eq(system, "game_boy_advance") {
        let mut v = direction_columns();
        push_col(&mut v, "A", DigitalField::Buttons, 1);
        push_col(&mut v, "B", DigitalField::Buttons, 2);
        push_col(&mut v, "Sel", DigitalField::Buttons, 4);
        push_col(&mut v, "St", DigitalField::Buttons, 8);
        push_col(&mut v, "L", DigitalField::Buttons, 16);
        push_col(&mut v, "R", DigitalField::Buttons, 32);
        proof {
            assert(v@ =~= spec_digital_columns(system@));
        }
        v
    } else if str_eq(system, "pce") || str_eq(system, "pc_engine") {
        let mut v = direction_columns();
        push_col(&mut v, "I", DigitalField::Buttons, 1);
        push_col(&mut v, "II", DigitalField::Buttons, 2);
        push_col(&mut v, "Sel", DigitalField::Buttons, 4);
        push_col(&mut v, "Run", DigitalField::Buttons, 8);
        push_col(&mut v, "III", DigitalField::Buttons, 16);
        push_col(&mut v, "IV", DigitalField::Buttons, 32);
        push_col(&mut v, "V", DigitalField::Buttons, 64);
        push_col(&mut v, "VI", DigitalField::Buttons, 128);
        proof {
            assert(v@ =~= spec_digital_columns(system@));
        }
        v
    } else {
        raw_digital_columns()
    }
}

/// Every column a system offers owns exactly one bit, and no two columns of
/// the same field share a bit.
pub proof fn law_columns_own_single_distinct_bits(system: Seq<char>)
    ensures
        forall|k: int|
            0 <= k < spec_digital_columns(system).len() ==> is_single_bit(
                #[trigger] spec_digital_columns(system)[k].mask,
            ),
        forall|j: int, k: int|
            0 <= j < k < spec_digital_columns(system).len() && #[trigger] spec_digital_columns(
                system,
            )[j].field == #[trigger] spec_digital_columns(system)[k].field
                ==> spec_digital_columns(system)[j].mask != spec_digital_columns(system)[k].mask,
{
    let c = spec_digital_columns(system);
    assert(is_single_bit(1) && is_single_bit(2) && is_single_bit(4) && is_single_bit(8)
        && is_single_bit(16) && is_single_bit(32) && is_single_bit(64) && is_single_bit(128));
}

/// On every system the columns of each field are shown in the order of the
/// bits they own, lowest bit first.
pub proof fn law_columns_follow_bit_order(system: Seq<char>)
    ensures
        forall|j: int, k: int|
            0 <= j < k < spec_digital_columns(system).len() && #[trigger] spec_digital_columns(
                system,
            )[j].field == #[trigger] spec_digital_columns(system)[k].field
                ==> spec_digital_columns(system)[j].mask < spec_digital_columns(system)[k].mask,
{
}

/// The Game Boy Advance pad is the Game Boy pad with the shoulder buttons
/// added: every Game Boy column keeps its place and bit, and L and R follow
/// on the two button bits after Start.
pub proof fn law_gba_pad_extends_game_boy_pad(system: Seq<char>)
    requires
        spec_is_gba(system),
    ensures
        spec_digital_columns(system).len() == spec_digital_columns("gb"@).len() + 2,
        forall|k: int|
            0 <= k < spec_digital_columns("gb"@).len() ==> #[trigger] spec_digital_columns(system)[k]
                == spec_digital_columns("gb"@)[k],
        spec_digital_columns("gb"@).last().label == "St",
        spec_digital_columns(system)[spec_digital_columns("gb"@).len() as int].label == "L",
        spec_digital_columns(system)[spec_digital_columns("gb"@).len() as int].field == DigitalField::Buttons,
        spec_digital_columns(system)[spec_digital_columns("gb"@).len() as int].mask
            == 2 * spec_digital_columns("gb"@).last().mask,
        spec_digital_columns(system)[spec_digital_columns("gb"@).len() as int + 1].label == "R",
        spec_digital_columns(system)[spec_digital_columns("gb"@).len() as int + 1].field == DigitalField::Buttons,
        spec_digital_columns(system)[spec_digital_columns("gb"@).len() as int + 1].mask
            == 4 * spec_digital_columns("gb"@).last().mask,
{
    reveal_strlit("gb");
    reveal_strlit("gba");
    reveal_strlit("game_boy_advance");
    reveal_strlit("game_boy");
    reveal_strlit("nes");
    reveal_strlit("sms");
    reveal_strlit("master_system");
    reveal_strlit("sg");
    reveal_strlit("sg1000");
    reveal_strlit("sg-1000");
    reveal_strlit("gg");
    reveal_strlit("game_gear");
    reveal_strlit("ws");
    reveal_strlit("wonderswan");
    assert(spec_is_four_button_system("gb"@));
    if system == "gba"@ {
        assert(system.len() == 3 && system[0] == 'g');
        assert("nes"@[0] == 'n' && "sms"@[0] == 's');
    } else {
        assert(system.len() == 16);
    }
    assert(!spec_is_four_button_system(system));
    assert(!spec_is_sega_two_button_system(system));
    assert(!spec_is_game_gear(system));
    assert(!spec_is_wonderswan(system));
}

/// The bit a control label names in the byte of its field. A label means
/// the same control on every pad that shows it; 0 for a label no pad uses.
pub open spec fn labelled_bit(field: DigitalField, label: Seq<char>) -> u8 {
    match field {
        DigitalField::Dpad => if label == "R"@ || label == "X1"@ || label == "D0"@ {
            1
        } else if label == "L"@ || label == "X2"@ || label == "D1"@ {
            2
        } else if label == "U"@ || label == "X3"@ || label == "D2"@ {
            4
        } else if label == "D"@ || label == "X4"@ || label == "D3"@ {
            8
        } else if label == "D4"@ {
            16
        } else if label == "D5"@ {
            32
        } else if label == "D6"@ {
            64
        } else if label == "D7"@ {
            128
        } else {
            0
        },
        DigitalField::Buttons => if label == "A"@ || label == "1"@ || label == "I"@ || label == "B0"@ {
            1
        } else if label == "B"@ || label == "2"@ || label == "II"@ || label == "B1"@ {
            2
        } else if label == "Sel"@ || label == "B2"@ {
            4
        } else if label == "St"@ || label == "Run"@ || label == "B3"@ {
            8
        } else if label == "L"@ || label == "III"@ || label == "Y1"@ || label == "B4"@ {
            16
        } else if label == "R"@ || label == "IV"@ || label == "Y2"@ || label == "B5"@ {
            32
        } else if label == "V"@ || label == "Y3"@ || label == "B6"@ {
            64
        } else if label == "VI"@ || label == "Y4"@ || label == "B7"@ {
            128
        } else {
            0
        },
    }
}

/// Every column of every system owns the bit its label names, so a label
/// edits the same control whichever pad shows it.
/// Whether each column owns the bit its label names.
pub open spec fn owns_labelled_bits(columns: Seq<DigitalColumn>) -> bool {
    forall|k: int|
        0 <= k < columns.len() ==> (#[trigger] columns[k]).mask == labelled_bit(columns[k].field, columns[k].label@)
}

proof fn lemma_owns_labelled_bits_concat(a: Seq<DigitalColumn>, b: Seq<DigitalColumn>)
    requires
        owns_labelled_bits(a),
        owns_labelled_bits(b),
    ensures
        owns_labelled_bits(a + b),
{
    assert forall|k: int| 0 <= k < (a + b).len() implies (#[trigger] (a + b)[k]).mask == labelled_bit(
        (a + b)[k].field,
        (a + b)[k].label@,
    ) by {
        if k < a.len() {
            assert((a + b)[k] == a[k]);
        } else {
            assert((a + b)[k] == b[k - a.len()]);
        }
    }
}

/// Every column of every system owns the bit its label names, so a label
/// edits the same control whichever pad shows it.
pub proof fn law_columns_own_their_labelled_bit(system: Seq<char>)
    ensures
        owns_labelled_bits(spec_digital_columns(system)),
{
    reveal_strlit("R");
    assert("R"@.len() == 1 && "R"@[0] == 'R');
    reveal_strlit("L");
    assert("L"@.len() == 1 && "L"@[0] == 'L');
    reveal_strlit("U");
    assert("U"@.len() == 1 && "U"@[0] == 'U');
    reveal_strlit("D");
    assert("D"@.len() == 1 && "D"@[0] == 'D');
    reveal_strlit("X1");
    assert("X1"@.len() == 2 && "X1"@[0] == 'X' && "X1"@[1] == '1');
    reveal_strlit("X2");
    assert("X2"@.len() == 2 && "X2"@[0] == 'X' && "X2"@[1] == '2');
    reveal_strlit("X3");
    assert("X3"@.len() == 2 && "X3"@[0] == 'X' && "X3"@[1] == '3');
    reveal_strlit("X4");
    assert("X4"@.len() == 2 && "X4"@[0] == 'X' && "X4"@[1] == '4');
    reveal_strlit("D0");
    assert("D0"@.len() == 2 && "D0"@[0] == 'D' && "D0"@[1] == '0');
    reveal_strlit("D1");
    assert("D1"@.len() == 2 && "D1"@[0] == 'D' && "D1"@[1] == '1');
    reveal_strlit("D2");
    assert("D2"@.len() == 2 && "D2"@[0] == 'D' && "D2"@[1] == '2');
    reveal_strlit("D3");
    assert("D3"@.len() == 2 && "D3"@[0] == 'D' && "D3"@[1] == '3');
    reveal_strlit("D4");
    assert("D4"@.len() == 2 && "D4"@[0] == 'D' && "D4"@[1] == '4');
    reveal_strlit("D5");
    assert("D5"@.len() == 2 && "D5"@[0] == 'D' && "D5"@[1] == '5');
    reveal_strlit("D6");
    assert("D6"@.len() == 2 && "D6"@[0] == 'D' && "D6"@[1] == '6');
    reveal_strlit("D7");
    assert("D7"@.len() == 2 && "D7"@[0] == 'D' && "D7"@[1] == '7');
    reveal_strlit("A");
    assert("A"@.len() == 1 && "A"@[0] == 'A');
    reveal_strlit("B");
    assert("B"@.len() == 1 && "B"@[0] == 'B');
    reveal_strlit("Sel");
    assert("Sel"@.len() == 3 && "Sel"@[0] == 'S' && "Sel"@[1] == 'e' && "Sel"@[2] == 'l');
    reveal_strlit("St");
    assert("St"@.len() == 2 && "St"@[0] == 'S' && "St"@[1] == 't');
    reveal_strlit("1");
    assert("1"@.len() == 1 && "1"@[0] == '1');
    reveal_strlit("2");
    assert("2"@.len() == 1 && "2"@[0] == '2');
    reveal_strlit("I");
    assert("I"@.len() == 1 && "I"@[0] == 'I');
    reveal_strlit("II");
    assert("II"@.len() == 2 && "II"@[0] == 'I' && "II"@[1] == 'I');
    reveal_strlit("Run");
    assert("Run"@.len() == 3 && "Run"@[0] == 'R' && "Run"@[1] == 'u' && "Run"@[2] == 'n');
    reveal_strlit("III");
    assert("III"@.len() == 3 && "III"@[0] == 'I' && "III"@[1] == 'I' && "III"@[2] == 'I');
    reveal_strlit("IV");
    assert("IV"@.len() == 2 && "IV"@[0] == 'I' && "IV"@[1] == 'V');
    reveal_strlit("V");
    assert("V"@.len() == 1 && "V"@[0] == 'V');
    reveal_strlit("VI");
    assert("VI"@.len() == 2 && "VI"@[0] == 'V' && "VI"@[1] == 'I');
    reveal_strlit("Y1");
    assert("Y1"@.len() == 2 && "Y1"@[0] == 'Y' && "Y1"@[1] == '1');
    reveal_strlit("Y2");
    assert("Y2"@.len() == 2 && "Y2"@[0] == 'Y' && "Y2"@[1] == '2');
    reveal_strlit("Y3");
    assert("Y3"@.len() == 2 && "Y3"@[0] == 'Y' && "Y3"@[1] == '3');
    reveal_strlit("Y4");
    assert("Y4"@.len() == 2 && "Y4"@[0] == 'Y' && "Y4"@[1] == '4');
    reveal_strlit("B0");
    assert("B0"@.len() == 2 && "B0"@[0] == 'B' && "B0"@[1] == '0');
    reveal_strlit("B1");
    assert("B1"@.len() == 2 && "B1"@[0] == 'B' && "B1"@[1] == '1');
    reveal_strlit("B2");
    assert("B2"@.len() == 2 && "B2"@[0] == 'B' && "B2"@[1] == '2');
    reveal_strlit("B3");
    assert("B3"@.len() == 2 && "B3"@[0] == 'B' && "B3"@[1] == '3');
    reveal_strlit("B4");
    assert("B4"@.len() == 2 && "B4"@[0] == 'B' && "B4"@[1] == '4');
    reveal_strlit("B5");
    assert("B5"@.len() == 2 && "B5"@[0] == 'B' && "B5"@[1] == '5');
    reveal_strlit("B6");
    assert("B6"@.len() == 2 && "B6"@[0] == 'B' && "B6"@[1] == '6');
    reveal_strlit("B7");
    assert("B7"@.len() == 2 && "B7"@[0] == 'B' && "B7"@[1] == '7');
    let c = spec_digital_columns(system);
    if spec_is_four_button_system(system) {
        assert(c[0].mask == labelled_bit(c[0].field, c[0].label@));
        assert(c[1].mask == labelled_bit(c[1].field, c[1].label@));
        assert(c[2].mask == labelled_bit(c[2].field, c[2].label@));
        assert(c[3].mask == labelled_bit(c[3].field, c[3].label@));
        assert(c[4].mask == labelled_bit(c[4].field, c[4].label@));
        assert(c[5].mask == labelled_bit(c[5].field, c[5].label@));
        assert(c[6].mask == labelled_bit(c[6].field, c[6].label@));
        assert(c[7].mask == labelled_bit(c[7].field, c[7].label@));
    } else if spec_is_sega_two_button_system(system) {
        assert(c[0].mask == labelled_bit(c[0].field, c[0].label@));
        assert(c[1].mask == labelled_bit(c[1].field, c[1].label@));
        assert(c[2].mask == labelled_bit(c[2].field, c[2].label@));
        assert(c[3].mask == labelled_bit(c[3].field, c[3].label@));
        assert(c[4].mask == labelled_bit(c[4].field, c[4].label@));
        assert(c[5].mask == labelled_bit(c[5].field, c[5].label@));
    } else if spec_is_game_gear(system) {
        assert(c[0].mask == labelled_bit(c[0].field, c[0].label@));
        assert(c[1].mask == labelled_bit(c[1].field, c[1].label@));
        assert(c[2].mask == labelled_bit(c[2].field, c[2].label@));
        assert(c[3].mask == labelled_bit(c[3].field, c[3].label@));
        assert(c[4].mask == labelled_bit(c[4].field, c[4].label@));
        assert(c[5].mask == labelled_bit(c[5].field, c[5].label@));
        assert(c[6].mask == labelled_bit(c[6].field, c[6].label@));
    } else if spec_is_wonderswan(system) {
        assert(c[0].mask == labelled_bit(c[0].field, c[0].label@));
        assert(c[1].mask == labelled_bit(c[1].field, c[1].label@));
        assert(c[2].mask == labelled_bit(c[2].field, c[2].label@));
        assert(c[3].mask == labelled_bit(c[3].field, c[3].label@));
        assert(c[4].mask == labelled_bit(c[4].field, c[4].label@));
        assert(c[5].mask == labelled_bit(c[5].field, c[5].label@));
        assert(c[6].mask == labelled_bit(c[6].field, c[6].label@));
        assert(c[7].mask == labelled_bit(c[7].field, c[7].label@));
        assert(c[8].mask == labelled_bit(c[8].field, c[8].label@));
        assert(c[9].mask == labelled_bit(c[9].field, c[9].label@));
        assert(c[10].mask == labelled_bit(c[10].field, c[10].label@));
    } else if spec_is_gba(system) {
        assert(c[0].mask == labelled_bit(c[0].field, c[0].label@));
        assert(c[1].mask == labelled_bit(c[1].field, c[1].label@));
        assert(c[2].mask == labelled_bit(c[2].field, c[2].label@));
        assert(c[3].mask == labelled_bit(c[3].field, c[3].label@));
        assert(c[4].mask == labelled_bit(c[4].field, c[4].label@));
        assert(c[5].mask == labelled_bit(c[5].field, c[5].label@));
        assert(c[6].mask == labelled_bit(c[6].field, c[6].label@));
        assert(c[7].mask == labelled_bit(c[7].field, c[7].label@));
        assert(c[8].mask == labelled_bit(c[8].field, c[8].label@));
        assert(c[9].mask == labelled_bit(c[9].field, c[9].label@));
    } else if spec_is_pc_engine(system) {
        assert(c[0].mask == labelled_bit(c[0].field, c[0].label@));
        assert(c[1].mask == labelled_bit(c[1].field, c[1].label@));
        assert(c[2].mask == labelled_bit(c[2].field, c[2].label@));
        assert(c[3].mask == labelled_bit(c[3].field, c[3].label@));
        assert(c[4].mask == labelled_bit(c[4].field, c[4].label@));
        assert(c[5].mask == labelled_bit(c[5].field, c[5].label@));
        assert(c[6].mask == labelled_bit(c[6].field, c[6].label@));
        assert(c[7].mask == labelled_bit(c[7].field, c[7].label@));
        assert(c[8].mask == labelled_bit(c[8].field, c[8].label@));
        assert(c[9].mask == labelled_bit(c[9].field, c[9].label@));
        assert(c[10].mask == labelled_bit(c[10].field, c[10].label@));
        assert(c[11].mask == labelled_bit(c[11].field, c[11].label@));
    } else {
        assert(c[0].mask == labelled_bit(c[0].field, c[0].label@));
        assert(c[1].mask == labelled_bit(c[1].field, c[1].label@));
        assert(c[2].mask == labelled_bit(c[2].field, c[2].label@));
        assert(c[3].mask == labelled_bit(c[3].field, c[3].label@));
        assert(c[4].mask == labelled_bit(c[4].field, c[4].label@));
        assert(c[5].mask == labelled_bit(c[5].field, c[5].label@));
        assert(c[6].mask == labelled_bit(c[6].field, c[6].label@));
        assert(c[7].mask == labelled_bit(c[7].field, c[7].label@));
        assert(c[8].mask == labelled_bit(c[8].field, c[8].label@));
        assert(c[9].mask == labelled_bit(c[9].field, c[9].label@));
        assert(c[10].mask == labelled_bit(c[10].field, c[10].label@));
        assert(c[11].mask == labelled_bit(c[11].field, c[11].label@));
        assert(c[12].mask == labelled_bit(c[12].field, c[12].label@));
        assert(c[13].mask == labelled_bit(c[13].field, c[13].label@));
        assert(c[14].mask == labelled_bit(c[14].field, c[14].label@));
        assert(c[15].mask == labelled_bit(c[15].field, c[15].label@));
    }
}

/// Whether `mask` has exactly one bit set.
pub open spec fn is_single_bit(mask: u8) -> bool {
    mask == 1 || mask == 2 || mask == 4 || mask == 8 || mask == 16 || mask == 32 || mask == 64
        || mask == 128
}

pub fn single_bit(mask: u8) -> (r: bool)
    ensures
        r == is_single_bit(mask),
{
    mask == 1 || mask == 2 || mask == 4 || mask == 8 || mask == 16 || mask == 32 || mask == 64
        || mask == 128
}

/// The union of the column bits of one field.
pub open spec fn field_bits(columns: Seq<DigitalColumn>, field: DigitalField) -> u8
    decreases columns.len(),
{
    if columns.len() == 0 {
        0
    } else {
        let rest = field_bits(columns.drop_last(), field);
        if columns.last().field == field {
            rest | columns.last().mask
        } else {
            rest
        }
    }
}

/// The union of the bits the columns of `field` own.
pub fn allowed_field_bits(columns: &Vec<DigitalColumn>, field: DigitalField) -> (r: u8)
    ensures
        r == field_bits(columns@, field),
{
    let mut bits: u8 = 0;
    let mut i: usize = 0;
    while i < columns.len()
        invariant
            0 <= i <= columns@.len(),
            bits == field_bits(columns@.take(i as int), field),
        decreases columns@.len() - i,
    {
        proof {
            assert(columns@.take(i + 1).drop_last() =~= columns@.take(i as int));
        }
        if columns[i].field == field {
            bits = bits | columns[i].mask;
        }
        i += 1;
    }
    proof {
        assert(columns@.take(columns@.len() as int) =~= columns@);
    }
    bits
}

/// Whether some column of `columns` is `(field, mask)`.
pub fn has_column(columns: &Vec<DigitalColumn>, field: DigitalField, mask: u8) -> (r: bool)
    ensures
        r == exists|k: int|
            0 <= k < columns@.len() && (#[trigger] columns@[k]).field == field && columns@[k].mask
                == mask,
{
    let mut i: usize = 0;
    while i < columns.len()
        invariant
            0 <= i <= columns@.len(),
            forall|k: int|
                0 <= k < i ==> !((#[trigger] columns@[k]).field == field && columns@[k].mask
                    == mask),
        decreases columns@.len() - i,
    {
        if columns[i].field == field && columns[i].mask == mask {
            return true;
        }
        i += 1;
    }
    false
}

/// Numeric value of a sequence of ASCII decimal digits.
pub open spec fn digits_value(s: Seq<char>) -> nat
    decreases s.len(),
{
    if s.len() == 0 {
        0
    } else {
        digits_value(s.drop_last()) * 10 + (s.last() as nat - '0' as nat) as nat
    }
}

pub open spec fn is_ascii_digit(c: char) -> bool {
    '0' <= c && c <= '9'
}

/// The digits of a port name after `p` and an optional `+` sign.
pub open spec fn port_digits(port: Seq<char>) -> Seq<char> {
    let rest = port.drop_first();
    if rest.len() > 0 && rest[0] == '+' {
        rest.drop_first()
    } else {
        rest
    }
}

/// The player (1 to 5) a port name such as `p3` denotes.
pub open spec fn spec_player_number(port: Seq<char>) -> Option<nat> {
    if port.len() > 0 && port[0] == 'p' && port_digits(port).len() > 0 && (forall|k: int|
        0 <= k < port_digits(port).len() ==> is_ascii_digit(#[trigger] port_digits(port)[k]))
        && 1 <= digits_value(port_digits(port)) <= 5 {
        Some(digits_value(port_digits(port)))
    } else {
        None
    }
}

proof fn lemma_digits_value_monotone(s: Seq<char>, n: int)
    requires
        0 <= n <= s.len(),
        forall|k: int| 0 <= k < s.len() ==> is_ascii_digit(#[trigger] s[k]),
    ensures
        digits_value(s.take(n)) <= digits_value(s),
    decreases s.len() - n,
{
    if n < s.len() {
        let t = s.drop_last();
        assert(t.take(n) =~= s.take(n));
        assert forall|k: int| 0 <= k < t.len() implies is_ascii_digit(#[trigger] t[k]) by {
            assert(t[k] == s[k]);
        }
        lemma_digits_value_monotone(t, n);
    } else {
        assert(s.take(n) =~= s);
    }
}

/// The player number a port name denotes, if it is `p1` to `p5`.
pub fn player_number(port: &str) -> (r: Option<usize>)
    ensures
        match spec_player_number(port@) {
            Some(p) => r == Some(p as usize),
            None => r is None,
        },
{
    let n = port.unicode_len();
    if n == 0 || port.get_char(0) != 'p' {
        return None;
    }
    let ghost digits = port_digits(port@);
    let mut start: usize = 1;
    if n > 1 && port.get_char(1) == '+' {
        start = 2;
    }
    proof {
        assert(digits =~= port@.subrange(start as int, n as int));
    }
    if start >= n {
        return None;
    }
    // value is capped at 6: anything above 5 is not a player.
    let mut value: u64 = 0;
    let mut i: usize = start;
    while i < n
        invariant
            n == port@.len(),
            1 <= start <= i <= n,
            digits == port@.subrange(start as int, n as int),
            digits == port_digits(port@),
            port@[0] == 'p',
            forall|k: int| 0 <= k < i - start ==> is_ascii_digit(#[trigger] digits[k]),
            value <= 6,
            value < 6 ==> value == digits_value(digits.take(i - start)),
            value == 6 ==> digits_value(digits.take(i - start)) >= 6,
        decreases n - i,
    {
        let c = port.get_char(i);
        if !('0' <= c && c <= '9') {
            proof {
                assert(digits[i - start] == c);
                assert(!is_ascii_digit(digits[i - start]));
                assert(digits == port_digits(port@));
                assert(!(forall|k: int|
                    0 <= k < port_digits(port@).len() ==> is_ascii_digit(
                        #[trigger] port_digits(port@)[k],
                    )));
            }
            return None;
        }
        let d: u64 = if c == '0' {
            0
        } else if c == '1' {
            1
        } else if c == '2' {
            2
        } else if c == '3' {
            3
        } else if c == '4' {
            4
        } else if c == '5' {
            5
        } else if c == '6' {
            6
        } else if c == '7' {
            7
        } else if c == '8' {
            8
        } else {
            9
        };
        proof {
            assert(digits[i - start] == c);
            assert(d == c as nat - '0' as nat);
            assert(digits.take(i - start + 1).drop_last() =~= digits.take(i - start));
        }
        let next = value * 10 + d;
        value = if next > 6 {
            6
        } else {
            next
        };
        i += 1;
    }
    proof {
        assert(digits.take(n - start) =~= digits);
    }
    if 1 <= value && value <= 5 {
        Some(value as usize)
    } else {
        None
    }
}

/// The largest player number over the devices, or zero.
pub open spec fn spec_max_player(devices: Seq<DeviceModel>) -> nat
    decreases devices.len(),
{
    if devices.len() == 0 {
        0
    } else {
        let rest = spec_max_player(devices.drop_last());
        match spec_player_number(devices.last().port) {
            Some(p) => if p > rest { p } else { rest },
            None => rest,
        }
    }
}

/// The number of players the timeline shows: the largest declared player
/// port, or one when no device names a player port.
pub open spec fn spec_applicable_player_count(devices: Seq<DeviceModel>) -> nat {
    if spec_max_player(devices) == 0 {
        1
    } else {
        spec_max_player(devices)
    }
}

/// No declared port names a player past the fifth.
pub proof fn lemma_max_player_bound(devices: Seq<DeviceModel>)
    ensures
        spec_max_player(devices) <= 5,
    decreases devices.len(),
{
    if devices.len() > 0 {
        lemma_max_player_bound(devices.drop_last());
    }
}

/// How many players a project declares (between one and five).
pub fn applicable_player_count(identity: &TasProjectIdentity) -> (r: usize)
    ensures
        r == spec_applicable_player_count(identity@.devices),
        1 <= r <= 5,
{
    let ghost devices = identity@.devices;
    let mut best: usize = 0;
    let mut i: usize = 0;
    while i < identity.devices.len()
        invariant
            0 <= i <= identity.devices@.len(),
            devices == identity@.devices,
            best == spec_max_player(devices.take(i as int)),
            best <= 5,
        decreases identity.devices@.len() - i,
    {
        proof {
            assert(devices.take(i + 1).drop_last() =~= devices.take(i as int));
            assert(devices.take(i + 1).last() == identity.devices@[i as int]@);
        }
        match player_number(identity.devices[i].port.as_str()) {
            Some(p) => {
                if p > best {
                    best = p;
                }
            },
            None => {},
        }
        i += 1;
    }
    proof {
        assert(devices.take(identity.devices@.len() as int) =~= devices);
        lemma_max_player_bound(devices);
    }
    if best == 0 {
        1
    } else {
        best
    }
}

/// Whether a timeline row of `system` shows its input as a summary line,
/// the system having no digital columns to tick.
pub fn shows_raw_input(system: &str) -> (r: bool)
    ensures
        r == (spec_digital_columns(system@).len() == 0),
{
    digital_columns(system).len() == 0
}

} // verus!
