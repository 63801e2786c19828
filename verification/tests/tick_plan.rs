use survivor_splitter::control::{plan_tick, TimerState};
use survivor_splitter::offsets::Offsets;
use survivor_splitter::settings::Settings;
use survivor_splitter::watcher::{Pair, Watcher};
use survivor_splitter::watchers::Watchers;

fn steady<T: Copy>(v: T) -> Watcher<T> {
    Watcher { pair: Some(Pair { old: v, current: v }) }
}

#[test]
fn running_tick_pushes_time_and_splits() {
    let mut w = Watchers::new();
    w.stage_id = steady(3);
    w.map_id = Watcher { pair: Some(Pair { old: 4, current: 14 }) };
    w.igt = steady(500);
    let mut s = Settings::all_disabled();
    s.igtstart = true;
    s.door_split = true;
    let plan = plan_tick(&w, &s, TimerState::Running);
    assert_eq!(plan.set_loading, Some(true));
    assert_eq!(plan.set_game_time, Some(500));
    assert!(!plan.act_reset);
    assert!(plan.act_split);
    assert!(!plan.act_start);
}

#[test]
fn paused_tick_still_evaluates_the_rules() {
    let mut w = Watchers::new();
    w.stage_id = steady(3);
    w.map_id = Watcher { pair: Some(Pair { old: 4, current: 14 }) };
    let mut s = Settings::all_disabled();
    s.door_split = true;
    let plan = plan_tick(&w, &s, TimerState::Paused);
    assert!(plan.act_split);
    assert_eq!(plan.set_loading, None);
    assert_eq!(plan.set_game_time, None);
}

#[test]
fn stopped_tick_only_considers_starting() {
    let mut w = Watchers::new();
    w.igt = Watcher { pair: Some(Pair { old: 0, current: 5 }) };
    w.map_id = steady(4);
    w.stage_id = steady(7);
    // A split-worthy transition must not fire while the timer is stopped.
    w.map_id = Watcher { pair: Some(Pair { old: 4, current: 4 }) };
    let mut s = Settings::all_disabled();
    s.igtstart = true;
    s.door_split = true;
    let plan = plan_tick(&w, &s, TimerState::NotRunning);
    assert!(plan.act_start);
    assert!(!plan.act_split);
    assert!(!plan.act_reset);
    assert_eq!(plan.set_game_time, None);
    // The started run is immediately given the loads opinion.
    assert_eq!(plan.set_loading, Some(true));
}

#[test]
fn stopped_tick_without_a_start_does_nothing() {
    let w = Watchers::new();
    let mut s = Settings::all_disabled();
    s.igtstart = true;
    let plan = plan_tick(&w, &s, TimerState::NotRunning);
    assert!(!plan.act_start);
    assert_eq!(plan.set_loading, None);
    assert_eq!(plan.set_game_time, None);
}

#[test]
fn address_table_matches_the_supported_image() {
    let o = Offsets::new();
    assert_eq!(o.gamecode_ntsc, 0x940C);
    assert_eq!(o.hp, 0x800A8974);
    assert_eq!(o.igt, 0x80063BE4);
    assert_eq!(o.map_id, 0x800B4130);
    assert_eq!(o.stage_id, 0x800B4EB0);
    assert_eq!(o.item_id, 0x800AF890);
    assert_eq!(o.gamestate, 0x801FF998);
    assert_eq!(o.startbuff, 0x8007FA9D);
    assert_eq!(o.hypno1, 0x801EE41E);
    assert_eq!(o.hypno2, 0x801F104A);
    assert_eq!(o.hypno3, 0x801F190E);
}

#[test]
fn fresh_watchers_are_empty() {
    let w = Watchers::new();
    assert!(w.igt.pair.is_none());
    assert!(w.inventory.pair.is_none());
    assert_eq!(w.accumulated_igt, 0);
    assert_eq!(w.buffer_igt, 0);
    let d = Watchers::default();
    assert!(d.stage_id.pair.is_none());
    let s = Settings::default();
    assert!(!s.igtstart && !s.door_split);
}
