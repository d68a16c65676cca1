use dcf77_clock::cycles_computer::CyclesComputer;
use dcf77_clock::dcf77_decoder::{DCF77Decoder, DecoderError, Edge, TransitionEvent};

#[test]
fn edge_new_maps_direction() {
    assert_eq!(Edge::new(true), Edge::Up);
    assert_eq!(Edge::new(false), Edge::Down);
}

#[test]
fn add_edge_stays_silent_until_both_phases_learned() {
    let mut b = dcf77_clock::dcf77_decoder::Binning::default();
    for _ in 0..6 {
        assert_eq!(b.add_edge(400, Edge::Up), None);
    }
    // Both extremes exist and the up count is past the threshold now,
    // but the very first down-edge is rated too, close to its phase.
    assert_eq!(b.add_edge(560, Edge::Down), Some(Edge::Down));
    assert_eq!(b.add_edge(401, Edge::Up), Some(Edge::Up));
    // An up-edge far from the learned up phase stays noise.
    assert_eq!(b.add_edge(600, Edge::Up), None);
}

#[test]
fn scaling_halves_extremes() {
    let mut b = dcf77_clock::dcf77_decoder::Binning::default();
    for _ in 0..64 {
        b.add_edge(800, Edge::Down);
    }
    // The 64th down-edge pushed the minimum to -64, which triggers the
    // halving of every bin and of both extremes.
    assert_eq!(b.min_val, -32);
    assert_eq!(b.bins[200], -32);
    assert_eq!(b.min_index, Some(200));
}

#[test]
fn scaling_triggers_on_max_side_too() {
    let mut b = dcf77_clock::dcf77_decoder::Binning::default();
    for _ in 0..64 {
        b.add_edge(800, Edge::Up);
    }
    assert_eq!(b.max_val, 64);
    // The next down-edge sees the maximum at half-range and rescales.
    b.add_edge(400, Edge::Down);
    assert_eq!(b.max_val, 32);
    assert_eq!(b.bins[200], 32);
    assert_eq!(b.max_index, Some(200));
    assert_eq!(b.bins[100], -1);
    assert_eq!(b.min_val, -1);
}

/// Trains the histogram so that up-edges at raw bin 40 and down-edges
/// at raw bin 440 are both forwarded.
fn trained_decoder() -> DCF77Decoder {
    let mut d = DCF77Decoder::new(CyclesComputer::new(1000));
    let mut t: u32 = 0;
    for _ in 0..8 {
        t += 100;
        // Results during training are noise or incomplete pairs.
        let _ = d.register_transition(false, t, 440);
        t += 100;
        let _ = d.register_transition(true, t, 40);
    }
    d
}

#[test]
fn pulse_width_classified_into_bands() {
    // At 1000 cycles per second, one cycle is one millisecond.
    let mut d = trained_decoder();
    d.register_transition(false, 10_000, 440).unwrap();
    match d.register_transition(true, 10_100, 40).unwrap() {
        TransitionEvent::PulseEnd { millis, bit } => {
            assert_eq!(millis, 100);
            assert_eq!(bit, 0);
        }
        other => panic!("expected a pulse end, got {:?}", other),
    }
    d.register_transition(false, 20_000, 440).unwrap();
    match d.register_transition(true, 20_200, 40).unwrap() {
        TransitionEvent::PulseEnd { millis, bit } => {
            assert_eq!(millis, 200);
            assert_eq!(bit, 1);
        }
        other => panic!("expected a pulse end, got {:?}", other),
    }
    d.register_transition(false, 30_000, 440).unwrap();
    match d.register_transition(true, 30_300, 40).unwrap() {
        TransitionEvent::PulseEnd { millis, bit } => {
            assert_eq!(millis, 300);
            assert_eq!(bit, 3);
        }
        other => panic!("expected a pulse end, got {:?}", other),
    }
}

#[test]
fn long_gap_is_minute_mark() {
    let mut d = trained_decoder();
    d.register_transition(false, 50_000, 440).unwrap();
    d.register_transition(true, 50_100, 40).unwrap();
    match d.register_transition(false, 52_000, 440).unwrap() {
        TransitionEvent::GapEnd { millis, minute_mark } => {
            assert_eq!(millis, 1900);
            assert!(minute_mark);
        }
        other => panic!("expected a gap end, got {:?}", other),
    }
    d.register_transition(true, 52_100, 40).unwrap();
    match d.register_transition(false, 52_900, 440).unwrap() {
        TransitionEvent::GapEnd { millis, minute_mark } => {
            assert_eq!(millis, 800);
            assert!(!minute_mark);
        }
        other => panic!("expected a gap end, got {:?}", other),
    }
}

#[test]
fn repeated_edge_is_wrong_transition() {
    let mut d = trained_decoder();
    d.register_transition(false, 60_000, 440).unwrap();
    d.register_transition(true, 60_100, 40).unwrap();
    // A second rated up-edge finds no high-to-low stamp to close.
    assert_eq!(
        d.register_transition(true, 60_150, 40),
        Err(DecoderError::WrongTransition)
    );
}

#[test]
fn unrated_edge_is_noise() {
    let mut d = trained_decoder();
    // Far away from both learned phases.
    assert_eq!(
        d.register_transition(true, 70_000, 900).unwrap(),
        TransitionEvent::Noise
    );
}

#[test]
fn wrapped_counter_still_measures() {
    let mut d = trained_decoder();
    d.register_transition(false, u32::MAX - 49, 440).unwrap();
    match d.register_transition(true, 50, 40).unwrap() {
        TransitionEvent::PulseEnd { millis, bit } => {
            assert_eq!(millis, 100);
            assert_eq!(bit, 0);
        }
        other => panic!("expected a pulse end, got {:?}", other),
    }
}
