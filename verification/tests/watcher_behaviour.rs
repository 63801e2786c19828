use survivor_splitter::watcher::{Pair, Watcher};

#[test]
fn first_reading_duplicates_into_both_slots() {
    let mut w: Watcher<u8> = Watcher::new();
    assert!(w.pair.is_none());
    w.update(Some(9));
    assert_eq!(w.pair, Some(Pair { old: 9, current: 9 }));
}

#[test]
fn reading_shifts_current_into_old() {
    let mut w: Watcher<u16> = Watcher::new();
    w.update(Some(1));
    w.update(Some(2));
    assert_eq!(w.pair, Some(Pair { old: 1, current: 2 }));
    w.update(Some(2));
    assert_eq!(w.pair, Some(Pair { old: 2, current: 2 }));
}

#[test]
fn failed_reading_keeps_last_good_pair() {
    let mut w: Watcher<u32> = Watcher::new();
    w.update(Some(1));
    w.update(Some(2));
    w.update(None);
    assert_eq!(w.pair, Some(Pair { old: 1, current: 2 }));
}

#[test]
fn failed_reading_before_any_success_stays_empty() {
    let mut w: Watcher<u32> = Watcher::new();
    w.update(None);
    assert!(w.pair.is_none());
}

#[test]
fn infallible_reading_always_shifts() {
    let mut w: Watcher<i16> = Watcher::new();
    w.update_infallible(-3);
    w.update_infallible(7);
    assert_eq!(w.pair, Some(Pair { old: -3, current: 7 }));
}
