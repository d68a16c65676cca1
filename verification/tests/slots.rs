use dcf77_clock::frequency::{bin_timer_divisors, index_of_max, ClockEvent, Timing};

#[test]
fn index_of_max_picks_largest() {
    assert_eq!(index_of_max(&[1, 3, 2]), Some(1));
    assert_eq!(index_of_max(&[9]), Some(0));
    assert_eq!(index_of_max(&[]), None);
}

#[test]
fn index_of_max_prefers_last_of_equals() {
    assert_eq!(index_of_max(&[1, 3, 3]), Some(2));
    assert_eq!(index_of_max(&[0, 0, 0, 0]), Some(3));
}

#[test]
fn fresh_timing_reports_last_slot() {
    // No hits anywhere: every slot ties at zero and the last one wins.
    let t = Timing::new();
    assert_eq!(t.identify_slot(), Some(9));
}

#[test]
fn signal_slot_identified() {
    let mut t = Timing::new();
    for round in 0..3u32 {
        for slot in 0..10u32 {
            if slot == 4 {
                t.event(ClockEvent::SignalDetected(round * 1000 + slot));
            }
            t.event(ClockEvent::TimerExpired);
        }
    }
    assert_eq!(t.identify_slot(), Some(4));
}

#[test]
fn signal_is_consumed_by_one_expiry() {
    let mut t = Timing::new();
    t.event(ClockEvent::SignalDetected(42));
    t.event(ClockEvent::TimerExpired);
    t.event(ClockEvent::TimerExpired);
    assert_eq!(t.state[0][0], Some(42));
    assert_eq!(t.state[0][1], None);
}

#[test]
fn table_stops_filling_when_full() {
    let mut t = Timing::new();
    for _ in 0..35 {
        t.event(ClockEvent::SignalDetected(7));
        t.event(ClockEvent::TimerExpired);
    }
    assert_eq!(t.counter, 30);
    // The 31st and later signals were not filed anywhere.
    assert_eq!(t.state[2][9], Some(7));
    assert_eq!(t.last_signal, Some(7));
}

#[test]
fn bin_timer_divisors_for_84_mhz() {
    let (reload, psc) = bin_timer_divisors(84_000_000);
    assert_eq!(reload, 1998);
    assert_eq!(psc, 42041);
}
