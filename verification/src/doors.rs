//! The static table of location transitions that count as generic split
//! points. A transition is fingerprinted by the stage the player is in, the
//! room just entered and the room just left; membership in the table is an
//! exact match on all three.

use vstd::prelude::*;

verus! {

/// A location-transition fingerprint: stage, room entered, room left.
#[derive(Clone, Copy, PartialEq, Eq, Structural, Debug)]
pub struct Door {
    pub stage_id: u8,
    pub current_room_id: u8,
    pub old_room_id: u8,
}

impl Door {
    /// Builds the fingerprint of the transition into `current_room_id` from
    /// `old_room_id` while in stage `stage_id`.
    pub fn new(stage_id: u8, current_room_id: u8, old_room_id: u8) -> (d: Door)
        ensures
            d == (Door { stage_id, current_room_id, old_room_id }),
    {
        Door { stage_id, current_room_id, old_room_id }
    }
}

/// One row of the transition table: stage `s`, entering room `c` from room `o`.
pub open spec fn row(d: Door, s: u8, c: u8, o: u8) -> bool {
    d.stage_id == s && d.current_room_id == c && d.old_room_id == o
}

/// Membership of a fingerprint in the immutable table of split-worthy
/// location transitions.
pub open spec fn door_in_table(d: Door) -> bool {
    ||| row(d, 7, 0, 4)
    ||| row(d, 7, 1, 0)
    ||| row(d, 7, 2, 1)
    ||| row(d, 7, 3, 2)
    ||| row(d, 8, 1, 0)
    ||| row(d, 8, 2, 1)
    ||| row(d, 8, 3, 2)
    ||| row(d, 8, 2, 3)
    ||| row(d, 8, 1, 2)
    ||| row(d, 8, 0, 1)
    ||| row(d, 14, 0, 3)
    ||| row(d, 14, 1, 0)
    ||| row(d, 14, 0, 1)
    ||| row(d, 14, 2, 0)
    ||| row(d, 14, 3, 2)
    ||| row(d, 14, 4, 3)
    ||| row(d, 3, 14, 4)
    ||| row(d, 3, 15, 14)
    ||| row(d, 3, 16, 15)
    ||| row(d, 3, 0, 16)
    ||| row(d, 3, 2, 0)
    ||| row(d, 3, 3, 2)
    ||| row(d, 3, 4, 3)
    ||| row(d, 3, 3, 4)
    ||| row(d, 3, 2, 3)
    ||| row(d, 3, 5, 2)
    ||| row(d, 3, 1, 5)
    ||| row(d, 3, 8, 1)
    ||| row(d, 3, 7, 8)
    ||| row(d, 3, 8, 7)
    ||| row(d, 3, 9, 8)
    ||| row(d, 3, 10, 9)
    ||| row(d, 10, 0, 10)
    ||| row(d, 10, 1, 0)
    ||| row(d, 10, 2, 1)
    ||| row(d, 10, 3, 2)
    ||| row(d, 10, 4, 3)
    ||| row(d, 11, 0, 4)
    ||| row(d, 11, 1, 0)
    ||| row(d, 11, 3, 1)
    ||| row(d, 11, 4, 3)
    ||| row(d, 11, 3, 4)
    ||| row(d, 11, 5, 3)
    ||| row(d, 11, 6, 5)
    ||| row(d, 11, 7, 6)
    ||| row(d, 11, 2, 7)
    ||| row(d, 11, 8, 2)
    ||| row(d, 16, 0, 8)
    ||| row(d, 16, 1, 0)
    ||| row(d, 16, 2, 1)
    ||| row(d, 16, 3, 2)
    ||| row(d, 16, 4, 3)
    ||| row(d, 16, 6, 4)
    ||| row(d, 16, 4, 6)
    ||| row(d, 16, 3, 4)
    ||| row(d, 16, 7, 3)
    ||| row(d, 16, 8, 7)
    ||| row(d, 16, 7, 8)
    ||| row(d, 16, 9, 7)
    ||| row(d, 16, 10, 9)
    ||| row(d, 16, 11, 10)
    ||| row(d, 5, 0, 11)
    ||| row(d, 6, 0, 11)
    ||| row(d, 2, 1, 0)
    ||| row(d, 2, 2, 1)
    ||| row(d, 2, 3, 2)
    ||| row(d, 2, 4, 3)
    ||| row(d, 2, 5, 4)
    ||| row(d, 2, 6, 5)
    ||| row(d, 2, 8, 6)
    ||| row(d, 2, 9, 8)
    ||| row(d, 2, 8, 9)
    ||| row(d, 2, 6, 8)
    ||| row(d, 2, 5, 6)
    ||| row(d, 2, 7, 5)
    ||| row(d, 2, 5, 7)
    ||| row(d, 2, 10, 6)
    ||| row(d, 2, 11, 10)
    ||| row(d, 2, 12, 11)
    ||| row(d, 2, 13, 12)
    ||| row(d, 2, 15, 13)
    ||| row(d, 2, 13, 15)
    ||| row(d, 2, 14, 13)
    ||| row(d, 2, 13, 14)
    ||| row(d, 2, 16, 15)
    ||| row(d, 17, 0, 16)
    ||| row(d, 17, 1, 0)
    ||| row(d, 17, 2, 1)
}

/// Exact-match lookup of a fingerprint in the transition table.
pub fn is_split_door(d: &Door) -> (r: bool)
    ensures
        r == door_in_table(*d),
{
    let c = d.current_room_id;
    let o = d.old_room_id;
    match d.stage_id {
        2 => {
            (c == 1 && o == 0) || (c == 2 && o == 1) || (c == 3 && o == 2)
                || (c == 4 && o == 3) || (c == 5 && o == 4) || (c == 6 && o == 5)
                || (c == 8 && o == 6) || (c == 9 && o == 8) || (c == 8 && o == 9)
                || (c == 6 && o == 8) || (c == 5 && o == 6) || (c == 7 && o == 5)
                || (c == 5 && o == 7) || (c == 10 && o == 6) || (c == 11 && o == 10)
                || (c == 12 && o == 11) || (c == 13 && o == 12) || (c == 15 && o == 13)
                || (c == 13 && o == 15) || (c == 14 && o == 13) || (c == 13 && o == 14)
                || (c == 16 && o == 15)
        },
        3 => {
            (c == 14 && o == 4) || (c == 15 && o == 14) || (c == 16 && o == 15)
                || (c == 0 && o == 16) || (c == 2 && o == 0) || (c == 3 && o == 2)
                || (c == 4 && o == 3) || (c == 3 && o == 4) || (c == 2 && o == 3)
                || (c == 5 && o == 2) || (c == 1 && o == 5) || (c == 8 && o == 1)
                || (c == 7 && o == 8) || (c == 8 && o == 7) || (c == 9 && o == 8)
                || (c == 10 && o == 9)
        },
        5 => c == 0 && o == 11,
        6 => c == 0 && o == 11,
        7 => {
            (c == 0 && o == 4) || (c == 1 && o == 0) || (c == 2 && o == 1)
                || (c == 3 && o == 2)
        },
        8 => {
            (c == 1 && o == 0) || (c == 2 && o == 1) || (c == 3 && o == 2)
                || (c == 2 && o == 3) || (c == 1 && o == 2) || (c == 0 && o == 1)
        },
        10 => {
            (c == 0 && o == 10) || (c == 1 && o == 0) || (c == 2 && o == 1)
                || (c == 3 && o == 2) || (c == 4 && o == 3)
        },
        11 => {
            (c == 0 && o == 4) || (c == 1 && o == 0) || (c == 3 && o == 1)
                || (c == 4 && o == 3) || (c == 3 && o == 4) || (c == 5 && o == 3)
                || (c == 6 && o == 5) || (c == 7 && o == 6) || (c == 2 && o == 7)
                || (c == 8 && o == 2)
        },
        14 => {
            (c == 0 && o == 3) || (c == 1 && o == 0) || (c == 0 && o == 1)
                || (c == 2 && o == 0) || (c == 3 && o == 2) || (c == 4 && o == 3)
        },
        16 => {
            (c == 0 && o == 8) || (c == 1 && o == 0) || (c == 2 && o == 1)
                || (c == 3 && o == 2) || (c == 4 && o == 3) || (c == 6 && o == 4)
                || (c == 4 && o == 6) || (c == 3 && o == 4) || (c == 7 && o == 3)
                || (c == 8 && o == 7) || (c == 7 && o == 8) || (c == 9 && o == 7)
                || (c == 10 && o == 9) || (c == 11 && o == 10)
        },
        17 => (c == 0 && o == 16) || (c == 1 && o == 0) || (c == 2 && o == 1),
        _ => false,
    }
}

} // verus!
