use dcf77_clock::classifier::{ClassifierEvent, PulseClassifier};
use dcf77_clock::pipeline::{ClockDiscipline, SignalPipeline};

/// Feeds `n` ticks of one level and collects the events.
fn feed(c: &mut PulseClassifier, level: bool, n: usize, out: &mut Vec<ClassifierEvent>) {
    for _ in 0..n {
        out.push(c.submit(level));
    }
}

fn bits_of(events: &[ClassifierEvent]) -> Vec<bool> {
    let mut bits = Vec::new();
    for e in events {
        match e {
            ClassifierEvent::BitStored(b) => bits.push(*b),
            ClassifierEvent::OutOfBandStored => bits.push(false),
            _ => {}
        }
    }
    bits
}

#[test]
fn classifier_emits_zero_then_one() {
    let mut c = PulseClassifier::new();
    let mut ev = Vec::new();
    // A long high phase whose end is the first minute mark, and the
    // pulse it opened, so the line is idle-high again.
    feed(&mut c, true, 200, &mut ev);
    feed(&mut c, false, 1, &mut ev);
    assert_eq!(*ev.last().unwrap(), ClassifierEvent::FirstMark);
    feed(&mut c, false, 9, &mut ev);
    feed(&mut c, true, 1, &mut ev);
    ev.clear();
    // 10 ticks high, 10 low, 10 high, 20 low, 10 high at 100 Hz.
    feed(&mut c, true, 10, &mut ev);
    feed(&mut c, false, 10, &mut ev);
    feed(&mut c, true, 10, &mut ev);
    feed(&mut c, false, 20, &mut ev);
    feed(&mut c, true, 10, &mut ev);
    assert_eq!(bits_of(&ev), vec![false, true]);
}

#[test]
fn out_of_band_pulse_degrades_to_zero() {
    let mut c = PulseClassifier::new();
    let mut ev = Vec::new();
    feed(&mut c, true, 200, &mut ev);
    feed(&mut c, false, 1, &mut ev);
    ev.clear();
    // A 40-tick low pulse: outside both bands.
    feed(&mut c, false, 39, &mut ev);
    feed(&mut c, true, 10, &mut ev);
    assert!(ev.contains(&ClassifierEvent::OutOfBandStored));
    assert_eq!(bits_of(&ev), vec![false]);
}

/// Runs one full minute through the classifier: a mark, then each of
/// the 59 low-order bits of `word` as a timed low pulse, then the long
/// high gap. Returns the published frame.
fn run_minute(word: u64) -> u64 {
    let mut c = PulseClassifier::new();
    let mut ev = Vec::new();
    feed(&mut c, true, 200, &mut ev);
    feed(&mut c, false, 1, &mut ev);
    assert_eq!(*ev.last().unwrap(), ClassifierEvent::FirstMark);
    for i in 0..59 {
        let one = (word >> i) & 1 == 1;
        ev.clear();
        // The low pulse of this second: it began on the tick that ended
        // the previous high phase.
        feed(&mut c, false, if one { 19 } else { 9 }, &mut ev);
        // The rest of the second is high; its first tick closes the pulse.
        feed(&mut c, true, 80, &mut ev);
        assert_eq!(bits_of(&ev), vec![one], "second {}", i);
        if i < 58 {
            // Open the next second's pulse.
            feed(&mut c, false, 1, &mut ev);
        }
    }
    // The 59th second has no pulse: the line stays high past the gap
    // threshold, and the next low edge publishes the frame.
    ev.clear();
    feed(&mut c, true, 150, &mut ev);
    feed(&mut c, false, 1, &mut ev);
    match ev.last().unwrap() {
        ClassifierEvent::FramePublished(w) => *w,
        other => panic!("expected a published frame, got {:?}", other),
    }
}

#[test]
fn full_minute_publishes_deposited_bits() {
    let word = 0x4852D5C62900000u64;
    assert_eq!(run_minute(word), word);
}

#[test]
fn overrun_publishes_once_and_resyncs() {
    let mut c = PulseClassifier::new();
    let mut ev = Vec::new();
    feed(&mut c, true, 200, &mut ev);
    feed(&mut c, false, 1, &mut ev);
    // 60 pulses without any minute mark: the 60th cannot be stored.
    for _ in 0..60 {
        feed(&mut c, false, 9, &mut ev);
        feed(&mut c, true, 30, &mut ev);
        feed(&mut c, false, 1, &mut ev);
    }
    let overruns: Vec<&ClassifierEvent> = ev
        .iter()
        .filter(|e| matches!(e, ClassifierEvent::Overrun(_)))
        .collect();
    assert_eq!(overruns.len(), 1);
    // After the overrun the classifier waits for a fresh mark: further
    // pulses deposit nothing.
    ev.clear();
    feed(&mut c, false, 9, &mut ev);
    feed(&mut c, true, 30, &mut ev);
    assert!(bits_of(&ev).is_empty());
}

#[test]
fn wait_for_mark_before_first_bit() {
    let mut c = PulseClassifier::new();
    let mut ev = Vec::new();
    // Pulses before any minute mark deposit nothing.
    feed(&mut c, true, 50, &mut ev);
    feed(&mut c, false, 10, &mut ev);
    feed(&mut c, true, 50, &mut ev);
    assert!(bits_of(&ev).is_empty());
}

#[test]
fn pipeline_smooths_before_classifying() {
    let mut p = SignalPipeline::new();
    let mut quiet = true;
    // Raw glitches shorter than the smoother window never reach the
    // classifier: no transition, no bits, no marks.
    for _ in 0..30 {
        for e in [
            p.submit_raw(false),
            p.submit_raw(true),
            p.submit_raw(true),
            p.submit_raw(true),
        ] {
            quiet = quiet && e == ClassifierEvent::Quiet;
        }
    }
    assert!(quiet);
}

#[test]
fn discipline_latches_on_first_success() {
    let mut d = ClockDiscipline::new();
    assert!(!d.synchronized());
    assert!(!d.on_decode(false));
    assert!(!d.synchronized());
    assert!(d.on_decode(true));
    assert!(d.synchronized());
    // Later failures keep the flag: the clock free-runs.
    assert!(!d.on_decode(false));
    assert!(d.synchronized());
}
