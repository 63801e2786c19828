//! The condition evaluator: pure rules over the watchers and the settings
//! that decide when the external timer starts, splits, resets or pauses, and
//! what elapsed time it is shown. Each rule is stated as a spec function and
//! the executable evaluators are proved equal to them.

use vstd::prelude::*;

use crate::doors::{door_in_table, is_split_door, Door};
use crate::settings::Settings;
use crate::watchers::Watchers;

verus! {

/// Membership of an item id in the inventory snapshot.
pub open spec fn inv_has(inv: Seq<u8>, id: u8) -> bool {
    exists|i: int| 0 <= i < inv.len() && inv[i] == id
}

/// Linear scan of the inventory snapshot for an item id.
pub fn inv_contains(inv: &[u8; 224], id: u8) -> (r: bool)
    ensures
        r == inv_has(inv@, id),
{
    let mut i: usize = 0;
    while i < 224
        invariant
            i <= 224,
            forall|j: int| 0 <= j < i ==> inv@[j] != id,
        decreases 224 - i,
    {
        if inv[i] == id {
            assert(inv@[i as int] == id);
            return true;
        }
        i = i + 1;
    }
    false
}

/// The start rule: either the in-game clock leaves zero while the player is
/// in the opening room of the opening stage (primary-clock rule), or the
/// global-state sentinel shows the run-select value while the one-shot start
/// buffer is set (alternate rule). Each half is gated by its own toggle.
pub open spec fn start_cond(w: Watchers, s: Settings) -> bool {
    ||| {
        &&& s.igtstart
        &&& w.igt.pair matches Some(p) && p.spec_changed_from(0u32)
        &&& w.map_id.pair matches Some(m) && m.current == 4
        &&& w.stage_id.pair matches Some(t) && t.current == 7
    }
    ||| {
        &&& s.rtastart
        &&& w.gamestate.pair matches Some(g) && g.current == 2147932080u32
        &&& w.startbuff.pair matches Some(b) && b.current == 1
    }
}

/// The location-transition rule, before its toggle is applied: the current
/// fingerprint is in the table, or it is the irregular stage boundary from
/// stage 5 to stage 2 landing on room 0, which the table cannot express.
pub open spec fn location_transition(w: Watchers) -> bool {
    &&& w.stage_id.pair matches Some(t)
    &&& w.map_id.pair matches Some(m)
    &&& {
        ||| door_in_table(
            Door { stage_id: t.current, current_room_id: m.current, old_room_id: m.old },
        )
        ||| (t.spec_changed_from_to(5u8, 2u8) && m.current == 0)
    }
}

/// The nominal-completion end rule: the global-state word moves from the
/// final-fight value to the credits value.
pub open spec fn igt_end_cond(w: Watchers, s: Settings) -> bool {
    &&& s.igtend
    &&& w.gamestate.pair matches Some(g) && g.spec_changed_from_to(2147638888u32, 2147971644u32)
}

/// The boss-defeat end rule: in the final room, both final-boss health
/// watchers are non-positive and one of them crossed from positive to
/// non-positive on this very tick, so the rule fires once, not on every tick
/// health stays depleted.
pub open spec fn boss_end_cond(w: Watchers, s: Settings) -> bool {
    &&& s.rtaend
    &&& w.stage_id.pair matches Some(t) && t.current == 17
    &&& w.map_id.pair matches Some(m) && m.current == 2
    &&& w.hypno2.pair matches Some(h2)
    &&& w.hypno3.pair matches Some(h3)
    &&& h2.current <= 0
    &&& h3.current <= 0
    &&& (h2.old >= 1 || h3.old >= 1)
}

/// One named milestone of the regular shape: while in stage `stage`, the room
/// moves from `from` to `to` on this tick.
pub open spec fn milestone(w: Watchers, stage: u8, from: u8, to: u8) -> bool {
    &&& w.stage_id.pair matches Some(t) && t.current == stage
    &&& w.map_id.pair matches Some(m) && m.spec_changed_from_to(from, to)
}

/// All named milestone rules, each gated by its own toggle. The first-form
/// boss milestone additionally needs that boss's health depleted; the
/// second-form boss milestone is the one irregular shape: it watches the boss
/// health edge itself, in the final room, while the third-form health still
/// holds its initial value.
pub open spec fn milestone_cond(w: Watchers, s: Settings) -> bool {
    ||| (s.street && milestone(w, 7, 0, 1))
    ||| (s.sewer && milestone(w, 3, 4, 14))
    ||| (s.umbhq && milestone(w, 11, 4, 0))
    ||| (s.mrx1 && milestone(w, 11, 7, 2))
    ||| (s.lily && milestone(w, 16, 4, 6))
    ||| (s.cable && milestone(w, 16, 9, 10))
    ||| (s.facil && milestone(w, 2, 2, 3))
    ||| (s.mrx2 && milestone(w, 2, 11, 12))
    ||| (s.huntlott && milestone(w, 2, 12, 13))
    ||| {
        &&& s.hypno1
        &&& milestone(w, 2, 13, 15)
        &&& w.hypno1.pair matches Some(h1) && h1.current <= 0
    }
    ||| {
        &&& s.hypno2
        &&& w.stage_id.pair matches Some(t) && t.current == 17
        &&& w.map_id.pair matches Some(m) && m.current == 2
        &&& w.hypno2.pair matches Some(h2) && h2.current <= 0 && h2.old >= 1
        &&& w.hypno3.pair matches Some(h3) && h3.current == 900
    }
}

/// The item-acquisition rules: an enabled item toggle whose item id is held
/// in the current inventory snapshot. False before the snapshot watcher has
/// received its first reading.
pub open spec fn item_cond(w: Watchers, s: Settings) -> bool {
    &&& w.inventory.pair matches Some(inv)
    &&& {
        ||| (s.rust && inv_has(inv.current@, 36))
        ||| (s.manage && inv_has(inv.current@, 37))
        ||| (s.crack && inv_has(inv.current@, 44))
        ||| (s.arcade && inv_has(inv.current@, 45))
        ||| (s.manhole && inv_has(inv.current@, 48))
        ||| (s.prison && inv_has(inv.current@, 41))
        ||| (s.rope && inv_has(inv.current@, 43))
        ||| (s.shotgun && inv_has(inv.current@, 4))
        ||| (s.cardkey && inv_has(inv.current@, 47))
        ||| (s.nadegun && inv_has(inv.current@, 8))
        ||| (s.magnum && inv_has(inv.current@, 5))
        ||| (s.disk && inv_has(inv.current@, 52))
        ||| (s.idcard && inv_has(inv.current@, 54))
        ||| (s.master && inv_has(inv.current@, 53))
    }
}

/// The whole split rule: nothing fires until both the stage and the room
/// watcher hold a pair; then any enabled category may fire.
pub open spec fn split_cond(w: Watchers, s: Settings) -> bool {
    &&& w.stage_id.pair is Some
    &&& w.map_id.pair is Some
    &&& {
        ||| (s.door_split && location_transition(w))
        ||| igt_end_cond(w, s)
        ||| boss_end_cond(w, s)
        ||| milestone_cond(w, s)
        ||| item_cond(w, s)
    }
}

/// Decides whether the timer should start this tick. With both governing
/// toggles disabled this is false whatever the watchers hold.
pub fn start(watchers: &Watchers, settings: &Settings) -> (r: bool)
    ensures
        r == start_cond(*watchers, *settings),
        !settings.igtstart && !settings.rtastart ==> r == false,
{
    if !settings.igtstart && !settings.rtastart {
        return false;
    }
    let igt_rule = settings.igtstart && (match (
        &watchers.igt.pair,
        &watchers.map_id.pair,
        &watchers.stage_id.pair,
    ) {
        (Some(p), Some(m), Some(t)) => {
            p.old == 0 && p.current != 0 && m.current == 4 && t.current == 7
        },
        _ => false,
    });
    let rta_rule = settings.rtastart && (match (&watchers.gamestate.pair, &watchers.startbuff.pair) {
        (Some(g), Some(b)) => g.current == 2147932080 && b.current == 1,
        _ => false,
    });
    igt_rule || rta_rule
}

/// Decides whether the timer should split this tick.
#[verifier::rlimit(100)]
pub fn split(watchers: &Watchers, settings: &Settings) -> (r: bool)
    ensures
        r == split_cond(*watchers, *settings),
{
    let stage = match &watchers.stage_id.pair {
        Some(t) => *t,
        None => {
            return false;
        },
    };
    let room = match &watchers.map_id.pair {
        Some(m) => *m,
        None => {
            return false;
        },
    };
    if settings.door_split {
        let d = Door::new(stage.current, room.current, room.old);
        if is_split_door(&d) || (stage.old == 5 && stage.current == 2 && room.current == 0) {
            return true;
        }
    }
    if settings.igtend {
        if let Some(g) = &watchers.gamestate.pair {
            if g.old == 2147638888 && g.current == 2147971644 {
                return true;
            }
        }
    }
    if settings.rtaend && stage.current == 17 && room.current == 2 {
        if let (Some(h2), Some(h3)) = (&watchers.hypno2.pair, &watchers.hypno3.pair) {
            if h2.current <= 0 && h3.current <= 0 && (h2.old >= 1 || h3.old >= 1) {
                return true;
            }
        }
    }
    if settings.street && stage.current == 7 && room.old == 0 && room.current == 1 {
        return true;
    }
    if settings.sewer && stage.current == 3 && room.old == 4 && room.current == 14 {
        return true;
    }
    if settings.umbhq && stage.current == 11 && room.old == 4 && room.current == 0 {
        return true;
    }
    if settings.mrx1 && stage.current == 11 && room.old == 7 && room.current == 2 {
        return true;
    }
    if settings.lily && stage.current == 16 && room.old == 4 && room.current == 6 {
        return true;
    }
    if settings.cable && stage.current == 16 && room.old == 9 && room.current == 10 {
        return true;
    }
    if settings.facil && stage.current == 2 && room.old == 2 && room.current == 3 {
        return true;
    }
    if settings.mrx2 && stage.current == 2 && room.old == 11 && room.current == 12 {
        return true;
    }
    if settings.huntlott && stage.current == 2 && room.old == 12 && room.current == 13 {
        return true;
    }
    if settings.hypno1 && stage.current == 2 && room.old == 13 && room.current == 15 {
        if let Some(h1) = &watchers.hypno1.pair {
            if h1.current <= 0 {
                return true;
            }
        }
    }
    if settings.hypno2 && stage.current == 17 && room.current == 2 {
        if let (Some(h2), Some(h3)) = (&watchers.hypno2.pair, &watchers.hypno3.pair) {
            if h2.current <= 0 && h2.old >= 1 && h3.current == 900 {
                return true;
            }
        }
    }
    if let Some(inv) = &watchers.inventory.pair {
        let held = &inv.current;
        if settings.rust && inv_contains(held, 36) {
            return true;
        }
        if settings.manage && inv_contains(held, 37) {
            return true;
        }
        if settings.crack && inv_contains(held, 44) {
            return true;
        }
        if settings.arcade && inv_contains(held, 45) {
            return true;
        }
        if settings.manhole && inv_contains(held, 48) {
            return true;
        }
        if settings.prison && inv_contains(held, 41) {
            return true;
        }
        if settings.rope && inv_contains(held, 43) {
            return true;
        }
        if settings.shotgun && inv_contains(held, 4) {
            return true;
        }
        if settings.cardkey && inv_contains(held, 47) {
            return true;
        }
        if settings.nadegun && inv_contains(held, 8) {
            return true;
        }
        if settings.magnum && inv_contains(held, 5) {
            return true;
        }
        if settings.disk && inv_contains(held, 52) {
            return true;
        }
        if settings.idcard && inv_contains(held, 54) {
            return true;
        }
        if settings.master && inv_contains(held, 53) {
            return true;
        }
    }
    false
}

/// Before the inventory watcher has received a reading, no item rule can
/// fire: the whole category is simply excluded.
pub proof fn lemma_items_need_snapshot(w: Watchers, s: Settings)
    ensures
        w.inventory.pair is None ==> !item_cond(w, s),
{
}

/// After the tick on which a boss health watcher crossed from positive to
/// non-positive, both retained values are non-positive, so the boss-defeat
/// end rule cannot fire again while health stays depleted.
pub proof fn lemma_boss_end_fires_on_edge_only(w: Watchers, s: Settings)
    requires
        w.hypno2.pair matches Some(h2) && h2.old <= 0,
        w.hypno3.pair matches Some(h3) && h3.old <= 0,
    ensures
        !boss_end_cond(w, s),
{
}

/// Decides whether the timer should be reset this tick: a deliberate
/// placeholder that never fires in the current rule set.
pub fn reset(_watchers: &Watchers, _settings: &Settings) -> (r: bool)
    ensures
        r == false,
{
    false
}

/// Whether the splitter has an opinion on the timer being paused for loads:
/// while the primary-clock start rule governs, the reconstructed clock is
/// treated as not advancing during loads, so the answer is always
/// `Some(true)`; otherwise the external timer keeps its own policy.
pub fn is_loading(_watchers: &Watchers, settings: &Settings) -> (r: Option<bool>)
    ensures
        r == (if settings.igtstart {
            Some(true)
        } else {
            None::<bool>
        }),
{
    if settings.igtstart {
        Some(true)
    } else {
        None
    }
}

/// The elapsed time handed to the external timer, in frames: present exactly
/// when the primary-clock rule is the active start policy and the counter
/// watcher holds a pair.
pub fn game_time(watchers: &Watchers, settings: &Settings) -> (r: Option<u64>)
    requires
        watchers.wf(),
        watchers.headroom(),
    ensures
        r == (if settings.igtstart && watchers.igt.pair is Some {
            Some(watchers.reported_time() as u64)
        } else {
            None::<u64>
        }),
        r matches Some(t) ==> t == watchers.reported_time(),
{
    if !settings.igtstart {
        return None;
    }
    match &watchers.igt.pair {
        Some(p) => Some(p.current as u64 - watchers.buffer_igt + watchers.accumulated_igt),
        None => None,
    }
}

} // verus!
