use dcf77_clock::smoother::Smoother;

#[test]
fn smoother_rejects_single_glitch() {
    let mut s = Smoother::new();
    for _ in 0..20 {
        assert!(s.submit(true));
    }
    // A lone low sample among highs, repeated: the held level never flips.
    for _ in 0..10 {
        assert!(s.submit(false));
        for _ in 0..7 {
            assert!(s.submit(true));
        }
    }
}

#[test]
fn smoother_holds_against_six_of_seven() {
    let mut s = Smoother::new();
    for _ in 0..6 {
        assert!(s.submit(false));
    }
    assert!(s.submit(true));
    assert!(s.submit(true));
}

#[test]
fn smoother_flips_on_full_consensus() {
    let mut s = Smoother::new();
    for _ in 0..6 {
        assert!(s.submit(false));
    }
    // The seventh contradicting sample completes the window.
    assert!(!s.submit(false));
    // And a full window of highs flips it back.
    for _ in 0..6 {
        assert!(!s.submit(true));
    }
    assert!(s.submit(true));
}

#[test]
fn smoother_output_follows_unanimous_window() {
    // Two different histories, same last seven samples: same output.
    let mut a = Smoother::new();
    let mut b = Smoother::new();
    for _ in 0..15 {
        a.submit(false);
    }
    for _ in 0..4 {
        b.submit(true);
        b.submit(false);
    }
    let mut last_a = false;
    let mut last_b = false;
    for _ in 0..7 {
        last_a = a.submit(true);
        last_b = b.submit(true);
    }
    assert!(last_a);
    assert!(last_b);
}
