//! The fixed memory locations, relative to the start of the emulated
//! console's RAM, at which the sampler reads each watched quantity, plus the
//! location of the program identity code used to detect the wrong image.

use vstd::prelude::*;

verus! {

/// Where each watched quantity lives in the target's memory.
#[derive(Clone, Copy, PartialEq, Eq, Structural, Debug)]
pub struct Offsets {
    /// Identity code of the expected program image.
    pub gamecode_ntsc: u32,
    /// Player health.
    pub hp: u32,
    /// Raw in-game frame counter.
    pub igt: u32,
    /// Room the player is in.
    pub map_id: u32,
    /// Stage the player is in.
    pub stage_id: u32,
    /// First inventory slot.
    pub item_id: u32,
    /// Global game-state word.
    pub gamestate: u32,
    /// One-shot byte that distinguishes a real run start from the demo.
    pub startbuff: u32,
    /// Health of the first form of the final boss.
    pub hypno1: u32,
    /// Health of the second form of the final boss.
    pub hypno2: u32,
    /// Health of the third form of the final boss.
    pub hypno3: u32,
}

impl Offsets {
    /// The address table of the supported program image.
    pub fn new() -> (o: Offsets)
        ensures
            o == (Offsets {
                gamecode_ntsc: 0x940C,
                hp: 0x800A8974,
                igt: 0x80063BE4,
                map_id: 0x800B4130,
                stage_id: 0x800B4EB0,
                item_id: 0x800AF890,
                gamestate: 0x801FF998,
                startbuff: 0x8007FA9D,
                hypno1: 0x801EE41E,
                hypno2: 0x801F104A,
                hypno3: 0x801F190E,
            }),
    {
        Offsets {
            gamecode_ntsc: 0x940C,
            hp: 0x800A8974,
            igt: 0x80063BE4,
            map_id: 0x800B4130,
            stage_id: 0x800B4EB0,
            item_id: 0x800AF890,
            gamestate: 0x801FF998,
            startbuff: 0x8007FA9D,
            hypno1: 0x801EE41E,
            hypno2: 0x801F104A,
            hypno3: 0x801F190E,
        }
    }
}

} // verus!
