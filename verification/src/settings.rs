//! The configuration surface: a flat set of boolean toggles, grouped into
//! start conditions, end conditions, the per-room location split, item
//! possession splits and named milestone splits. The struct is refreshed from
//! the host's configuration once per tick and only borrowed by the rules.

use vstd::prelude::*;

verus! {

/// All toggles that govern the rule set. Every flag defaults to disabled.
#[derive(Clone, Copy, PartialEq, Eq, Structural, Debug)]
pub struct Settings {
    /// Start when the in-game clock first becomes nonzero in the opening room.
    pub igtstart: bool,
    /// Start when the global-state sentinel appears with the start buffer set.
    pub rtastart: bool,
    /// Split when the global state moves to the final-credits value.
    pub igtend: bool,
    /// Split when the final boss's health is depleted.
    pub rtaend: bool,
    /// Split on every location transition in the table.
    pub door_split: bool,
    /// Split on picking up the rusted key.
    pub rust: bool,
    /// Split on picking up the manager's key.
    pub manage: bool,
    /// Split on picking up the cracked key.
    pub crack: bool,
    /// Split on picking up the arcade key.
    pub arcade: bool,
    /// Split on picking up the manhole opener.
    pub manhole: bool,
    /// Split on picking up the prison cell key.
    pub prison: bool,
    /// Split on picking up the rope.
    pub rope: bool,
    /// Split on picking up the shotgun.
    pub shotgun: bool,
    /// Split on picking up the card key.
    pub cardkey: bool,
    /// Split on picking up the grenade gun.
    pub nadegun: bool,
    /// Split on picking up the magnum.
    pub magnum: bool,
    /// Split on picking up the activation disk.
    pub disk: bool,
    /// Split on picking up the ID card.
    pub idcard: bool,
    /// Split on picking up the master key.
    pub master: bool,
    /// Split on entering the street after the restaurant.
    pub street: bool,
    /// Split on entering the sewers.
    pub sewer: bool,
    /// Split on reaching the corporate headquarters.
    pub umbhq: bool,
    /// Split on defeating the first stalker boss at the elevator.
    pub mrx1: bool,
    /// Split on meeting the girl at the house.
    pub lily: bool,
    /// Split at the end of the cable car section.
    pub cable: bool,
    /// Split on entering the facility.
    pub facil: bool,
    /// Split on passing the stalker boss on the long bridge.
    pub mrx2: bool,
    /// Split on saving the boy from the hunter.
    pub huntlott: bool,
    /// Split on defeating the first form of the final boss.
    pub hypno1: bool,
    /// Split on defeating the second form of the final boss.
    pub hypno2: bool,
}

impl Settings {
    /// A configuration with every toggle disabled.
    pub fn all_disabled() -> (s: Settings)
        ensures
            s == Settings::spec_all_disabled(),
    {
        Settings {
            igtstart: false,
            rtastart: false,
            igtend: false,
            rtaend: false,
            door_split: false,
            rust: false,
            manage: false,
            crack: false,
            arcade: false,
            manhole: false,
            prison: false,
            rope: false,
            shotgun: false,
            cardkey: false,
            nadegun: false,
            magnum: false,
            disk: false,
            idcard: false,
            master: false,
            street: false,
            sewer: false,
            umbhq: false,
            mrx1: false,
            lily: false,
            cable: false,
            facil: false,
            mrx2: false,
            huntlott: false,
            hypno1: false,
            hypno2: false,
        }
    }

    /// The configuration with every toggle disabled.
    pub open spec fn spec_all_disabled() -> Settings {
        Settings {
            igtstart: false,
            rtastart: false,
            igtend: false,
            rtaend: false,
            door_split: false,
            rust: false,
            manage: false,
            crack: false,
            arcade: false,
            manhole: false,
            prison: false,
            rope: false,
            shotgun: false,
            cardkey: false,
            nadegun: false,
            magnum: false,
            disk: false,
            idcard: false,
            master: false,
            street: false,
            sewer: false,
            umbhq: false,
            mrx1: false,
            lily: false,
            cable: false,
            facil: false,
            mrx2: false,
            huntlott: false,
            hypno1: false,
            hypno2: false,
        }
    }
}

impl Default for Settings {
    /// Every toggle starts disabled, matching the host's defaults.
    fn default() -> (s: Settings)
        ensures
            s == Settings::spec_all_disabled(),
    {
        Settings::all_disabled()
    }
}

} // verus!
