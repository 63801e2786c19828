use survivor_splitter::rules;
use survivor_splitter::settings::Settings;
use survivor_splitter::watchers::{Sample, Watchers};

fn counter_sample(igt: u32) -> Sample {
    Sample {
        igt,
        inventory: [0u8; 224],
        hp: None,
        map_id: None,
        stage_id: None,
        item_id: None,
        gamestate: None,
        startbuff: None,
        hypno1: None,
        hypno2: None,
        hypno3: None,
    }
}

fn igt_settings() -> Settings {
    let mut s = Settings::all_disabled();
    s.igtstart = true;
    s
}

#[test]
fn rollover_is_banked_into_the_accumulator() {
    // The raw counter rolls back between the third and fourth reading; the
    // finished epoch (250 frames, counted from the epoch base 0) is banked
    // and the new epoch starts at 40.
    let s = igt_settings();
    let mut w = Watchers::new();
    let readings = [0u32, 100, 250, 40, 300];
    let expected = [0u64, 100, 250, 250, 510];
    for (r, e) in readings.iter().zip(expected.iter()) {
        w.update(Some(&counter_sample(*r)), false);
        assert_eq!(rules::game_time(&w, &s), Some(*e));
    }
    assert_eq!(w.accumulated_igt, 250);
    assert_eq!(w.buffer_igt, 40);
}

#[test]
fn reported_time_never_decreases_while_running() {
    let s = igt_settings();
    let mut w = Watchers::new();
    let readings = [5u32, 80, 10, 10, 900, 3, 3, 4];
    let mut last: u64 = 0;
    for r in readings.iter() {
        w.update(Some(&counter_sample(*r)), false);
        let t = rules::game_time(&w, &s).unwrap();
        assert!(t >= last);
        last = t;
    }
}

#[test]
fn wrong_image_tick_defaults_the_counter_without_losing_time() {
    let s = igt_settings();
    let mut w = Watchers::new();
    w.update(Some(&counter_sample(120)), false);
    w.update(None, false);
    // The defaulted reading 0 looks like a rollover; the 120 frames stay.
    assert_eq!(rules::game_time(&w, &s), Some(120));
}

#[test]
fn stopped_timer_clears_the_accumulator() {
    let s = igt_settings();
    let mut w = Watchers::new();
    w.update(Some(&counter_sample(100)), false);
    w.update(Some(&counter_sample(30)), false);
    assert_eq!(w.accumulated_igt, 100);
    // The first stopped tick clears both registers.
    w.update(Some(&counter_sample(30)), true);
    assert_eq!(w.accumulated_igt, 0);
    assert_eq!(w.buffer_igt, 0);
    // The counter restarting at zero looks like one more rollover, which the
    // next stopped tick clears again; the fresh run then reports zero.
    w.update(Some(&counter_sample(0)), true);
    w.update(Some(&counter_sample(0)), true);
    assert_eq!(w.accumulated_igt, 0);
    assert_eq!(w.buffer_igt, 0);
    assert_eq!(rules::game_time(&w, &s), Some(0));
}

#[test]
fn game_time_is_absent_without_the_primary_clock_policy() {
    let s = Settings::all_disabled();
    let mut w = Watchers::new();
    w.update(Some(&counter_sample(42)), false);
    assert_eq!(rules::game_time(&w, &s), None);
}

#[test]
fn game_time_is_absent_before_the_first_reading() {
    let s = igt_settings();
    let w = Watchers::new();
    assert_eq!(rules::game_time(&w, &s), None);
}
