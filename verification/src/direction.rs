//! The direction encoder: the single source of truth mapping a pair of axis
//! components, each already reduced to -1, 0 or +1, to one of the nine
//! direction codes of the numeric-keypad convention (5 = neutral, 8 = up,
//! 2 = down, 4 = left, 6 = right, corners for the diagonals).

use vstd::prelude::*;

verus! {

/// The fixed direction table: (0,0) is neutral, the axes point at the
/// matching keypad digit, and every diagonal is the corner between them.
pub open spec fn direction_spec(horizontal: int, vertical: int) -> u8 {
    if horizontal == 0 && vertical == 0 {
        5
    } else if horizontal == 1 && vertical == 0 {
        6
    } else if horizontal == -1 && vertical == 0 {
        4
    } else if horizontal == 0 && vertical == 1 {
        8
    } else if horizontal == 0 && vertical == -1 {
        2
    } else if horizontal == 1 && vertical == 1 {
        9
    } else if horizontal == -1 && vertical == 1 {
        7
    } else if horizontal == 1 && vertical == -1 {
        3
    } else {
        1
    }
}

/// For all nine combinations of components in {-1, 0, 1} the encoder returns
/// exactly the fixed table entry of the numeric-keypad convention.
pub proof fn lemma_direction_table()
    ensures
        direction_spec(0, 0) == 5,
        direction_spec(1, 0) == 6,
        direction_spec(-1, 0) == 4,
        direction_spec(0, 1) == 8,
        direction_spec(0, -1) == 2,
        direction_spec(1, 1) == 9,
        direction_spec(-1, 1) == 7,
        direction_spec(1, -1) == 3,
        direction_spec(-1, -1) == 1,
{
}

/// Encodes a reduced axis pair as a direction code.
pub fn to_direction(horizontal: i32, vertical: i32) -> (direction: u8)
    requires
        -1 <= horizontal <= 1,
        -1 <= vertical <= 1,
    ensures
        direction == direction_spec(horizontal as int, vertical as int),
        1 <= direction <= 9,
{
    match (horizontal, vertical) {
        (0, 0) => 5,
        (1, 0) => 6,
        (-1, 0) => 4,
        (0, 1) => 8,
        (0, -1) => 2,
        (1, 1) => 9,
        (-1, 1) => 7,
        (1, -1) => 3,
        _ => 1,
    }
}

} // verus!
