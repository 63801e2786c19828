//! The per-tick state of the splitter: one watcher per observed quantity,
//! together with the accumulator that reconstructs a monotonic elapsed time
//! from the raw in-game frame counter, which resets to zero on level
//! transitions and deaths.

use vstd::prelude::*;

use crate::watcher::{Pair, Watcher};

verus! {

/// One tick's readings from the target process. A field is `None` when that
/// single read failed this tick; the frame counter and the inventory snapshot
/// are always present because the sampler substitutes zeroed defaults for
/// those two reads.
#[derive(Clone, Copy, Debug)]
pub struct Sample {
    /// Raw in-game frame counter.
    pub igt: u32,
    /// First byte of each inventory slot: the item id held in that slot.
    pub inventory: [u8; 224],
    /// Player health.
    pub hp: Option<u16>,
    /// Room the player is in.
    pub map_id: Option<u8>,
    /// Stage the player is in.
    pub stage_id: Option<u8>,
    /// Item id of the first inventory slot.
    pub item_id: Option<u8>,
    /// Global game-state word.
    pub gamestate: Option<u32>,
    /// One-shot byte that distinguishes a real run start from the demo.
    pub startbuff: Option<u8>,
    /// Health of the first form of the final boss.
    pub hypno1: Option<i16>,
    /// Health of the second form of the final boss.
    pub hypno2: Option<i16>,
    /// Health of the third form of the final boss.
    pub hypno3: Option<i16>,
}

/// All watched quantities, plus the two accumulator registers of the elapsed
/// time reconstruction. Created fresh on each (re)attachment to the target.
#[derive(Clone, Copy, Debug)]
pub struct Watchers {
    pub hp: Watcher<u16>,
    pub map_id: Watcher<u8>,
    pub stage_id: Watcher<u8>,
    pub item_id: Watcher<u8>,
    pub gamestate: Watcher<u32>,
    pub startbuff: Watcher<u8>,
    pub inventory: Watcher<[u8; 224]>,
    pub hypno1: Watcher<i16>,
    pub hypno2: Watcher<i16>,
    pub hypno3: Watcher<i16>,
    /// Watcher over the raw frame counter.
    pub igt: Watcher<u32>,
    /// Frames gathered from counter epochs that ended in a rollover.
    pub accumulated_igt: u64,
    /// Counter value at which the current epoch began.
    pub buffer_igt: u64,
}

impl Watchers {
    /// The freshly constructed state: no readings yet, accumulator cleared.
    pub open spec fn spec_new() -> Watchers {
        Watchers {
            hp: Watcher { pair: None },
            map_id: Watcher { pair: None },
            stage_id: Watcher { pair: None },
            item_id: Watcher { pair: None },
            gamestate: Watcher { pair: None },
            startbuff: Watcher { pair: None },
            inventory: Watcher { pair: None },
            hypno1: Watcher { pair: None },
            hypno2: Watcher { pair: None },
            hypno3: Watcher { pair: None },
            igt: Watcher { pair: None },
            accumulated_igt: 0,
            buffer_igt: 0,
        }
    }

    /// Well-formedness of the accumulator: the epoch base never exceeds the
    /// newest counter reading, and is zero before the first reading.
    pub open spec fn wf(self) -> bool {
        match self.igt.pair {
            Some(p) => self.buffer_igt <= p.current,
            None => self.buffer_igt == 0,
        }
    }

    /// Room left in the accumulator for one more epoch; a machine limit, not
    /// a rule: the sampler checks it each tick.
    pub open spec fn headroom(self) -> bool {
        self.accumulated_igt as int <= u64::MAX - u32::MAX
    }

    /// The reconstructed elapsed time, in frames: the newest counter reading
    /// plus all frames gathered from earlier epochs.
    pub open spec fn reported_time(self) -> int {
        match self.igt.pair {
            Some(p) => p.current + self.accumulated_igt - self.buffer_igt,
            None => 0,
        }
    }

    pub fn new() -> (w: Watchers)
        ensures
            w == Watchers::spec_new(),
            w.wf(),
            w.headroom(),
    {
        Watchers {
            hp: Watcher::new(),
            map_id: Watcher::new(),
            stage_id: Watcher::new(),
            item_id: Watcher::new(),
            gamestate: Watcher::new(),
            startbuff: Watcher::new(),
            inventory: Watcher::new(),
            hypno1: Watcher::new(),
            hypno2: Watcher::new(),
            hypno3: Watcher::new(),
            igt: Watcher::new(),
            accumulated_igt: 0,
            buffer_igt: 0,
        }
    }

    /// How one tick relates the state before the readings were fed to the
    /// state after: every watcher shifted by its reading (defaulted readings
    /// when the wrong program image was detected), then the accumulator
    /// registers cleared if the external timer is not running, then a counter
    /// rollover banked into the accumulator.
    pub open spec fn tick_rel(
        pre: Watchers,
        post: Watchers,
        sample: Option<Sample>,
        timer_not_running: bool,
    ) -> bool {
        &&& post.wf()
        &&& (match sample {
            Some(s) => {
                &&& post.igt == pre.igt.spec_update(Some(s.igt))
                &&& post.inventory == pre.inventory.spec_update(Some(s.inventory))
                &&& post.hp == pre.hp.spec_update(s.hp)
                &&& post.map_id == pre.map_id.spec_update(s.map_id)
                &&& post.stage_id == pre.stage_id.spec_update(s.stage_id)
                &&& post.item_id == pre.item_id.spec_update(s.item_id)
                &&& post.gamestate == pre.gamestate.spec_update(s.gamestate)
                &&& post.startbuff == pre.startbuff.spec_update(s.startbuff)
                &&& post.hypno1 == pre.hypno1.spec_update(s.hypno1)
                &&& post.hypno2 == pre.hypno2.spec_update(s.hypno2)
                &&& post.hypno3 == pre.hypno3.spec_update(s.hypno3)
            },
            None => {
                &&& post.igt == pre.igt.spec_update(Some(0u32))
                &&& post.inventory == pre.inventory.spec_update(
                    Some(vstd::array::spec_array_fill_for_copy_type::<u8, 224>(0u8)),
                )
                &&& post.hp == pre.hp.spec_update(Some(0u16))
                &&& post.map_id == pre.map_id.spec_update(Some(0u8))
                &&& post.stage_id == pre.stage_id.spec_update(Some(0u8))
                &&& post.item_id == pre.item_id.spec_update(Some(0u8))
                &&& post.gamestate == pre.gamestate.spec_update(Some(0u32))
                &&& post.startbuff == pre.startbuff.spec_update(Some(0u8))
                &&& post.hypno1 == pre.hypno1.spec_update(Some(0i16))
                &&& post.hypno2 == pre.hypno2.spec_update(Some(0i16))
                &&& post.hypno3 == pre.hypno3.spec_update(Some(0i16))
            },
        })
        &&& ({
            let p = post.igt.pair->0;
            let acc0: int = if timer_not_running {
                0
            } else {
                pre.accumulated_igt as int
            };
            let buf0: int = if timer_not_running {
                0
            } else {
                pre.buffer_igt as int
            };
            if p.old > p.current {
                post.accumulated_igt == acc0 + p.old - buf0 && post.buffer_igt == p.current
            } else {
                post.accumulated_igt == acc0 && post.buffer_igt == buf0
            }
        })
    }

    /// Feed one tick's readings into every watcher and advance the elapsed
    /// time reconstruction.
    ///
    /// `sample` is `None` when the wrong program image was detected this
    /// tick: every watcher then falls back to a defaulted reading, so the
    /// rules see a stable inactive state instead of stale data. Afterwards, if the
    /// external timer is not running, both accumulator registers are cleared;
    /// then a counter rollover (newest reading below the previous one) banks
    /// the finished epoch into the accumulator and starts a new epoch at the
    /// newest reading. While the timer is running the reconstructed time
    /// never decreases across a tick.
    pub fn update(&mut self, sample: Option<&Sample>, timer_not_running: bool)
        requires
            old(self).wf(),
            old(self).headroom(),
        ensures
            final(self).wf(),
            Watchers::tick_rel(
                *old(self),
                *final(self),
                match sample {
                    Some(s) => Some(*s),
                    None => None,
                },
                timer_not_running,
            ),
            final(self).accumulated_igt as int <= old(self).accumulated_igt as int + u32::MAX,
            !timer_not_running ==> final(self).reported_time() >= old(self).reported_time(),
            timer_not_running && final(self).igt.pair->0.old <= final(self).igt.pair->0.current
                ==> final(self).accumulated_igt == 0 && final(self).buffer_igt == 0,
    {
        match sample {
            Some(s) => {
                self.igt.update_infallible(s.igt);
                self.inventory.update_infallible(s.inventory);
                self.hypno1.update(s.hypno1);
                self.hypno2.update(s.hypno2);
                self.hypno3.update(s.hypno3);
                self.hp.update(s.hp);
                self.map_id.update(s.map_id);
                self.stage_id.update(s.stage_id);
                self.item_id.update(s.item_id);
                self.gamestate.update(s.gamestate);
                self.startbuff.update(s.startbuff);
            },
            None => {
                self.hp.update_infallible(0);
                self.igt.update_infallible(0);
                self.inventory.update_infallible([0u8; 224]);
                self.map_id.update_infallible(0);
                self.stage_id.update_infallible(0);
                self.item_id.update_infallible(0);
                self.startbuff.update_infallible(0);
                self.gamestate.update_infallible(0);
                self.hypno1.update_infallible(0);
                self.hypno2.update_infallible(0);
                self.hypno3.update_infallible(0);
            },
        }
        if timer_not_running {
            self.accumulated_igt = 0;
            self.buffer_igt = 0;
        }
        let pair_now: Option<Pair<u32>> = self.igt.pair;
        if let Some(p) = pair_now {
            if p.old > p.current {
                self.accumulated_igt = self.accumulated_igt + (p.old as u64 - self.buffer_igt);
                self.buffer_igt = p.current as u64;
            }
        }
    }
}

/// While the external timer is running, one tick never decreases the
/// reconstructed elapsed time, whatever reading the raw counter delivered: a
/// rollover is banked, not lost.
pub proof fn lemma_tick_keeps_time_nondecreasing(
    pre: Watchers,
    post: Watchers,
    sample: Option<Sample>,
)
    requires
        pre.wf(),
        Watchers::tick_rel(pre, post, sample, false),
    ensures
        post.reported_time() >= pre.reported_time(),
{
}

/// Over any whole sequence of ticks with the external timer running, the
/// reconstructed elapsed time is non-decreasing: `states` are the watcher
/// states before and after each tick, `samples` the readings fed in between.
pub proof fn lemma_run_keeps_time_nondecreasing(
    states: Seq<Watchers>,
    samples: Seq<Option<Sample>>,
    i: int,
    j: int,
)
    requires
        states.len() == samples.len() + 1,
        states[0].wf(),
        forall|k: int|
            0 <= k < samples.len() ==> #[trigger] Watchers::tick_rel(
                states[k],
                states[k + 1],
                samples[k],
                false,
            ),
        0 <= i <= j < states.len(),
    ensures
        states[i].reported_time() <= states[j].reported_time(),
    decreases j - i,
{
    if i < j {
        lemma_run_keeps_time_nondecreasing(states, samples, i, j - 1);
        let k = j - 1;
        assert(Watchers::tick_rel(states[k], states[k + 1], samples[k], false));
        if k > 0 {
            let k0 = k - 1;
            assert(Watchers::tick_rel(states[k0], states[k0 + 1], samples[k0], false));
        }
        lemma_tick_keeps_time_nondecreasing(states[k], states[k + 1], samples[k]);
        assert(states[k + 1] == states[j]);
    }
}

/// A tick taken while the external timer is not running clears both
/// accumulator registers, so the next run starts from a clean reconstruction;
/// when the raw counter also restarts at zero, the reported time is zero.
pub proof fn lemma_stopped_tick_clears_accumulator(
    pre: Watchers,
    post: Watchers,
    sample: Option<Sample>,
)
    requires
        Watchers::tick_rel(pre, post, sample, true),
        post.igt.pair matches Some(p) && p.old <= p.current,
    ensures
        post.accumulated_igt == 0,
        post.buffer_igt == 0,
        post.reported_time() == post.igt.pair->0.current,
{
}

impl Default for Watchers {
    /// Same state as `new`: no readings yet, accumulator cleared.
    fn default() -> (w: Watchers)
        ensures
            w == Watchers::spec_new(),
            w.wf(),
            w.headroom(),
    {
        Watchers::new()
    }
}

} // verus!
