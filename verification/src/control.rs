//! The per-tick decision of the timer control loop. The external timer owns
//! the state machine (not running / running / paused); this module turns one
//! tick's watcher state, settings and timer state into the fixed-order batch
//! of actions the driver must perform, so that the ordering rules live in
//! verified code: reset is decided before split, and a start is attempted
//! only while the timer is fully stopped.

use vstd::prelude::*;

use crate::rules;
use crate::settings::Settings;
use crate::watchers::Watchers;

verus! {

/// The state of the external timer, as observed at the start of the tick.
#[derive(Clone, Copy, PartialEq, Eq, Structural, Debug)]
pub enum TimerState {
    NotRunning,
    Running,
    Paused,
}

/// What the driver must do this tick, in this order: apply `set_loading` to
/// the pause-for-loads flag, push `set_game_time` to the external clock,
/// issue a reset if `act_reset`, else a split if `act_split`; and on
/// `act_start`, start the timer, force an initial pause-for-loads, then apply
/// `set_loading` once more to settle the initial pause state.
#[derive(Clone, Copy, PartialEq, Eq, Structural, Debug)]
pub struct TickPlan {
    /// New value for the pause-for-loads flag, when the rules have an opinion.
    pub set_loading: Option<bool>,
    /// Elapsed time, in frames, to push to the external clock.
    pub set_game_time: Option<u64>,
    /// Issue a reset this tick.
    pub act_reset: bool,
    /// Issue a split this tick; never set together with `act_reset`.
    pub act_split: bool,
    /// Start the timer this tick; only while it was not running.
    pub act_start: bool,
}

/// The splitter's opinion on the pause-for-loads flag.
pub open spec fn loading_opinion(s: Settings) -> Option<bool> {
    if s.igtstart {
        Some(true)
    } else {
        None
    }
}

/// The elapsed time pushed to the external clock, when the primary-clock
/// start rule is the active policy.
pub open spec fn game_time_value(w: Watchers, s: Settings) -> Option<u64> {
    if s.igtstart && w.igt.pair is Some {
        Some(w.reported_time() as u64)
    } else {
        None
    }
}

/// Evaluates every rule for one tick, after the watchers have been updated,
/// and returns the batch of actions for the driver.
pub fn plan_tick(watchers: &Watchers, settings: &Settings, state: TimerState) -> (plan: TickPlan)
    requires
        watchers.wf(),
        watchers.headroom(),
    ensures
        state is Running || state is Paused ==> {
            &&& plan.set_loading == loading_opinion(*settings)
            &&& plan.set_game_time == game_time_value(*watchers, *settings)
            &&& plan.act_reset == false
            &&& plan.act_split == rules::split_cond(*watchers, *settings)
            &&& plan.act_start == false
        },
        state is NotRunning ==> {
            &&& plan.act_start == rules::start_cond(*watchers, *settings)
            &&& plan.set_loading == (if rules::start_cond(*watchers, *settings) {
                loading_opinion(*settings)
            } else {
                None::<bool>
            })
            &&& plan.set_game_time is None
            &&& plan.act_reset == false
            &&& plan.act_split == false
        },
        !(plan.act_reset && plan.act_split),
{
    match state {
        TimerState::Running | TimerState::Paused => {
            let do_reset = rules::reset(watchers, settings);
            let do_split = if do_reset {
                false
            } else {
                rules::split(watchers, settings)
            };
            TickPlan {
                set_loading: rules::is_loading(watchers, settings),
                set_game_time: rules::game_time(watchers, settings),
                act_reset: do_reset,
                act_split: do_split,
                act_start: false,
            }
        },
        TimerState::NotRunning => {
            let do_start = rules::start(watchers, settings);
            TickPlan {
                set_loading: if do_start {
                    rules::is_loading(watchers, settings)
                } else {
                    None
                },
                set_game_time: None,
                act_reset: false,
                act_split: false,
                act_start: do_start,
            }
        },
    }
}

} // verus!
