//! Button bit layouts and the expansion of a logical button mask into the
//! fixed vocabulary of symbolic button names.
//!
//! Two layouts exist. The decoders produce the physical layout: one bit per
//! recognized physical control (face buttons, shoulders, triggers,
//! thumb-clicks, select/start, D-pad quadrants). The emitted frame events
//! carry the logical layout: the eight fighting-game inputs, filled in by an
//! external remapping table that is not part of this crate.

use vstd::prelude::*;

verus! {

// Logical layout: the eight fighting-game inputs, one bit each, in the fixed
// vocabulary order.
pub const BUTTON_LP_MASK: u16 = 1u16 << 0;

pub const BUTTON_MP_MASK: u16 = 1u16 << 1;

pub const BUTTON_HP_MASK: u16 = 1u16 << 2;

pub const BUTTON_LK_MASK: u16 = 1u16 << 3;

pub const BUTTON_MK_MASK: u16 = 1u16 << 4;

pub const BUTTON_HK_MASK: u16 = 1u16 << 5;

pub const BUTTON_DI_MASK: u16 = 1u16 << 6;

pub const BUTTON_PARRY_MASK: u16 = 1u16 << 7;

// Physical layout: one bit per recognized physical control, shared by both
// protocol decoders.
pub const BUTTON_SOUTH_MASK: u16 = 1u16 << 0;

pub const BUTTON_EAST_MASK: u16 = 1u16 << 1;

pub const BUTTON_WEST_MASK: u16 = 1u16 << 2;

pub const BUTTON_NORTH_MASK: u16 = 1u16 << 3;

pub const BUTTON_L1_MASK: u16 = 1u16 << 4;

pub const BUTTON_R1_MASK: u16 = 1u16 << 5;

pub const BUTTON_L2_MASK: u16 = 1u16 << 6;

pub const BUTTON_R2_MASK: u16 = 1u16 << 7;

pub const BUTTON_SELECT_MASK: u16 = 1u16 << 8;

pub const BUTTON_START_MASK: u16 = 1u16 << 9;

pub const BUTTON_L3_MASK: u16 = 1u16 << 10;

pub const BUTTON_R3_MASK: u16 = 1u16 << 11;

pub const BUTTON_DPAD_UP_MASK: u16 = 1u16 << 12;

pub const BUTTON_DPAD_DOWN_MASK: u16 = 1u16 << 13;

pub const BUTTON_DPAD_LEFT_MASK: u16 = 1u16 << 14;

pub const BUTTON_DPAD_RIGHT_MASK: u16 = 1u16 << 15;

/// `bit` when `held`, empty otherwise; a decoder combines these by OR.
pub open spec fn mask_bit(held: bool, bit: u16) -> u16 {
    if held {
        bit
    } else {
        0
    }
}

/// The bit of the logical layout at the given position of the vocabulary.
pub open spec fn button_bit_spec(index: int) -> u16 {
    if index == 0 {
        1
    } else if index == 1 {
        2
    } else if index == 2 {
        4
    } else if index == 3 {
        8
    } else if index == 4 {
        16
    } else if index == 5 {
        32
    } else if index == 6 {
        64
    } else {
        128
    }
}

/// The symbolic name at the given position of the fixed vocabulary.
pub open spec fn button_name_spec(index: int) -> Seq<char> {
    if index == 0 {
        "LP"@
    } else if index == 1 {
        "MP"@
    } else if index == 2 {
        "HP"@
    } else if index == 3 {
        "LK"@
    } else if index == 4 {
        "MK"@
    } else if index == 5 {
        "HK"@
    } else if index == 6 {
        "DI"@
    } else {
        "Parry"@
    }
}

/// The names of the buttons held down in `mask` among the first `count`
/// entries of the vocabulary, in vocabulary order.
pub open spec fn button_names_upto(mask: u16, count: int) -> Seq<Seq<char>>
    decreases count,
{
    if count <= 0 {
        Seq::empty()
    } else if mask & button_bit_spec(count - 1) == button_bit_spec(count - 1) {
        button_names_upto(mask, count - 1) + seq![button_name_spec(count - 1)]
    } else {
        button_names_upto(mask, count - 1)
    }
}

/// The names of all buttons held down in `mask`, in vocabulary order.
pub open spec fn button_names_spec(mask: u16) -> Seq<Seq<char>> {
    button_names_upto(mask, 8)
}

/// The bit of the logical layout at the given vocabulary position.
fn button_bit(index: usize) -> (bit: u16)
    requires
        index < 8,
    ensures
        bit == button_bit_spec(index as int),
{
    match index {
        0 => 1,
        1 => 2,
        2 => 4,
        3 => 8,
        4 => 16,
        5 => 32,
        6 => 64,
        _ => 128,
    }
}

/// The symbolic name at the given vocabulary position.
fn button_name(index: usize) -> (name: String)
    requires
        index < 8,
    ensures
        name@ == button_name_spec(index as int),
{
    match index {
        0 => String::from_str("LP"),
        1 => String::from_str("MP"),
        2 => String::from_str("HP"),
        3 => String::from_str("LK"),
        4 => String::from_str("MK"),
        5 => String::from_str("HK"),
        6 => String::from_str("DI"),
        _ => String::from_str("Parry"),
    }
}

/// Expands a logical button mask into the names currently down, in the fixed
/// vocabulary order.
pub fn mask_to_buttons(mask: u16) -> (names: Vec<String>)
    ensures
        names@.map_values(|s: String| s@) == button_names_spec(mask),
{
    let mut names: Vec<String> = Vec::new();
    let mut index: usize = 0;
    while index < 8
        invariant
            index <= 8,
            names@.map_values(|s: String| s@) == button_names_upto(mask, index as int),
        decreases 8 - index,
    {
        let bit = button_bit(index);
        if mask & bit == bit {
            names.push(button_name(index));
        }
        index = index + 1;
        proof {
            assert(names@.map_values(|s: String| s@) =~= button_names_upto(
                mask,
                index as int,
            ));
        }
    }
    names
}

} // verus!
