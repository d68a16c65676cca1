//! Pulse classifier and frame assembler: turns the stream of debounced
//! levels, sampled at a fixed tick rate, into classified bits and minute
//! marks, and accumulates up to 59 bits between two marks into a frame
//! word that is published exactly once per minute.

use vstd::prelude::*;

verus! {

use crate::bits::word_bit;

/// A high phase longer than this many ticks (1500 ms at 100 Hz) is the
/// missing 59th pulse that marks the minute boundary.
pub const MINUTE_GAP_TICKS: u32 = 150;

/// 0-bit band: low pulses of 60..=140 ms.
pub const ZERO_BAND_LO: u32 = 6;

pub const ZERO_BAND_HI: u32 = 14;

/// 1-bit band: low pulses of 160..=240 ms.
pub const ONE_BAND_LO: u32 = 16;

pub const ONE_BAND_HI: u32 = 24;

/// Bits carried by one telegram: seconds 0..58 of the minute.
pub const FRAME_BITS: u8 = 59;

/// What one submitted sample produced.
#[derive(Clone, Copy, PartialEq, Eq, Structural, Debug)]
pub enum ClassifierEvent {
    /// Nothing noteworthy this tick.
    Quiet,
    /// The first minute mark: the assembler starts accepting bits.
    FirstMark,
    /// A minute mark closed a frame: the accumulated word, published once.
    FramePublished(u64),
    /// A low pulse inside one of the two width bands: its bit was
    /// deposited.
    BitStored(bool),
    /// A low pulse outside both bands: a 0 bit was deposited so that a
    /// parity check rejects the frame downstream instead of a silent
    /// misread.
    OutOfBandStored,
    /// A sixtieth bit arrived before the mark: the frame is published as
    /// a fallback and the assembler resyncs from scratch.
    Overrun(u64),
}

/// State of the in-progress second and of the accumulating frame.
pub struct PulseClassifier {
    /// The debounced level of the previous tick.
    pub current_level: bool,
    /// Ticks since the last level change, saturating.
    pub current_pause: u32,
    /// Free-running tick counter, wrapping.
    pub running_tick: u32,
    /// Whether a minute mark has been seen since the last resync.
    pub start_detected: bool,
    /// The bits deposited since the last mark, LSB first.
    pub frame_word: u64,
    /// Next bit position to fill, in 0..=59.
    pub bit_position: u8,
}

/// A pause counter one tick later, saturating at its maximum.
pub open spec fn sat_inc(p: u32) -> u32 {
    if p == u32::MAX {
        p
    } else {
        (p + 1) as u32
    }
}

/// A tick counter one tick later, wrapping at its maximum.
pub open spec fn wrap_inc(t: u32) -> u32 {
    if t == u32::MAX {
        0
    } else {
        (t + 1) as u32
    }
}

/// The bit value a low pulse of the given width deposits: 1 exactly in
/// the 1-bit band, 0 everywhere else.
pub open spec fn pulse_bit(pause: u32) -> bool {
    ONE_BAND_LO <= pause <= ONE_BAND_HI
}

/// Whether a low pulse width lies in either band.
pub open spec fn pulse_in_band(pause: u32) -> bool {
    (ZERO_BAND_LO <= pause <= ZERO_BAND_HI) || (ONE_BAND_LO <= pause <= ONE_BAND_HI)
}

/// The frame word after a bit is deposited at `pos`; a 0 bit leaves the
/// already-clear position untouched.
pub open spec fn set_bit(w: u64, pos: u8, b: bool) -> u64 {
    if b {
        w | (1u64 << (pos as u64))
    } else {
        w
    }
}

/// All bits of `w` at or above `pos` are clear.
pub open spec fn word_fits(w: u64, pos: u8) -> bool {
    forall|j: u64| pos <= j < 64 ==> !word_bit(w, j)
}

/// One tick of the classifier: the next state and the event produced.
///
/// On an unchanged level only the pause grows. On a change, a high
/// phase past the minute gap is a mark — publishing the frame when one
/// was already started — and a closing low pulse deposits its bit,
/// unless the frame is already full, which forces a fallback publish
/// and a resync.
pub open spec fn spec_submit(s: PulseClassifier, level: bool) -> (PulseClassifier, ClassifierEvent) {
    if level == s.current_level {
        (
            PulseClassifier {
                current_level: s.current_level,
                current_pause: sat_inc(s.current_pause),
                running_tick: wrap_inc(s.running_tick),
                start_detected: s.start_detected,
                frame_word: s.frame_word,
                bit_position: s.bit_position,
            },
            ClassifierEvent::Quiet,
        )
    } else if s.current_pause > 0 && s.current_level && s.current_pause > MINUTE_GAP_TICKS {
        (
            PulseClassifier {
                current_level: level,
                current_pause: 0,
                running_tick: wrap_inc(s.running_tick),
                start_detected: true,
                frame_word: 0,
                bit_position: 0,
            },
            if s.start_detected {
                ClassifierEvent::FramePublished(s.frame_word)
            } else {
                ClassifierEvent::FirstMark
            },
        )
    } else if !s.current_level && s.start_detected {
        if s.bit_position == FRAME_BITS {
            (
                PulseClassifier {
                    current_level: level,
                    current_pause: 0,
                    running_tick: wrap_inc(s.running_tick),
                    start_detected: false,
                    frame_word: 0,
                    bit_position: 0,
                },
                ClassifierEvent::Overrun(s.frame_word),
            )
        } else {
            (
                PulseClassifier {
                    current_level: level,
                    current_pause: 0,
                    running_tick: wrap_inc(s.running_tick),
                    start_detected: true,
                    frame_word: set_bit(s.frame_word, s.bit_position, pulse_bit(s.current_pause)),
                    bit_position: (s.bit_position + 1) as u8,
                },
                if pulse_in_band(s.current_pause) {
                    ClassifierEvent::BitStored(pulse_bit(s.current_pause))
                } else {
                    ClassifierEvent::OutOfBandStored
                },
            )
        }
    } else {
        (
            PulseClassifier {
                current_level: level,
                current_pause: 0,
                running_tick: wrap_inc(s.running_tick),
                start_detected: s.start_detected,
                frame_word: s.frame_word,
                bit_position: s.bit_position,
            },
            ClassifierEvent::Quiet,
        )
    }
}

/// A bit of the zero word is never set.
proof fn lemma_zero_bit(j: u64)
    by (bit_vector)
    requires
        j < 64,
    ensures
        !word_bit(0u64, j),
{
}

/// Setting bit `p` by or-ing leaves every other bit alone and sets `p`.
proof fn lemma_or_bit(w: u64, p: u64, j: u64)
    by (bit_vector)
    requires
        p < 64,
        j < 64,
    ensures
        word_bit(w | (1u64 << p), j) == (word_bit(w, j) || j == p),
{
}

impl PulseClassifier {
    /// The frame buffer invariant: the fill position never passes 59 and
    /// every position not yet filled is clear.
    pub open spec fn wf(self) -> bool {
        self.bit_position <= FRAME_BITS && word_fits(self.frame_word, self.bit_position)
    }

    /// The bits deposited since the last mark, in deposit order.
    pub open spec fn bits(self) -> Seq<bool> {
        Seq::new(self.bit_position as nat, |i: int| word_bit(self.frame_word, i as u64))
    }

    /// Starts waiting for the first minute mark, with the line idle-high.
    pub fn new() -> (r: PulseClassifier)
        ensures
            r.wf(),
            r.current_level,
            !r.start_detected,
            r.current_pause == 0,
            r.running_tick == 0,
            r.frame_word == 0,
            r.bit_position == 0,
    {
        proof {
            assert forall|j: u64| 0 <= j < 64 implies !word_bit(0u64, j) by {
                lemma_zero_bit(j);
            }
        }
        PulseClassifier {
            current_level: true,
            current_pause: 0,
            running_tick: 0,
            start_detected: false,
            frame_word: 0,
            bit_position: 0,
        }
    }

    /// Feeds one debounced level sample; behaves exactly as
    /// `spec_submit` describes.
    pub fn submit(&mut self, level: bool) -> (ev: ClassifierEvent)
        requires
            old(self).wf(),
        ensures
            (*final(self), ev) == spec_submit(*old(self), level),
            final(self).wf(),
    {
        proof {
            lemma_submit_wf(*old(self), level);
        }
        let ev: ClassifierEvent;
        if level == self.current_level {
            if self.current_pause < u32::MAX {
                self.current_pause = self.current_pause + 1;
            }
            ev = ClassifierEvent::Quiet;
        } else {
            if self.current_pause > 0 && self.current_level && self.current_pause
                > MINUTE_GAP_TICKS {
                ev = if self.start_detected {
                    ClassifierEvent::FramePublished(self.frame_word)
                } else {
                    ClassifierEvent::FirstMark
                };
                self.start_detected = true;
                self.frame_word = 0;
                self.bit_position = 0;
            } else if !self.current_level && self.start_detected {
                if self.bit_position == FRAME_BITS {
                    ev = ClassifierEvent::Overrun(self.frame_word);
                    self.start_detected = false;
                    self.frame_word = 0;
                    self.bit_position = 0;
                } else {
                    let value = ONE_BAND_LO <= self.current_pause && self.current_pause
                        <= ONE_BAND_HI;
                    let in_band = value || (ZERO_BAND_LO <= self.current_pause
                        && self.current_pause <= ZERO_BAND_HI);
                    if value {
                        self.frame_word = self.frame_word | (1u64 << (self.bit_position as u64));
                    }
                    self.bit_position = self.bit_position + 1;
                    ev = if in_band {
                        ClassifierEvent::BitStored(value)
                    } else {
                        ClassifierEvent::OutOfBandStored
                    };
                }
            } else {
                ev = ClassifierEvent::Quiet;
            }
            self.current_pause = 0;
            self.current_level = level;
        }
        self.running_tick = if self.running_tick < u32::MAX {
            self.running_tick + 1
        } else {
            0
        };
        ev
    }
}

/// One classifier tick preserves the frame buffer invariant, and a
/// deposit appends exactly the deposited bit to the accumulated bits.
pub proof fn lemma_submit_wf(s: PulseClassifier, level: bool)
    requires
        s.wf(),
    ensures
        spec_submit(s, level).0.wf(),
        spec_submit(s, level).1 matches ClassifierEvent::BitStored(b) ==> spec_submit(s, level).0.bits()
            =~= s.bits().push(b),
        spec_submit(s, level).1 is OutOfBandStored ==> spec_submit(s, level).0.bits() =~= s.bits().push(
            false,
        ),
        spec_submit(s, level).1 is Quiet ==> spec_submit(s, level).0.bits() == s.bits()
            && spec_submit(s, level).0.start_detected == s.start_detected,
        spec_submit(s, level).1 matches ClassifierEvent::FramePublished(w) ==> w == s.frame_word,
{
    let s2 = spec_submit(s, level).0;
    let ev = spec_submit(s, level).1;
    assert forall|j: u64| 0 <= j < 64 implies !word_bit(0u64, j) by {
        lemma_zero_bit(j);
    }
    if level != s.current_level && !(s.current_pause > 0 && s.current_level && s.current_pause
        > MINUTE_GAP_TICKS) && !s.current_level && s.start_detected && s.bit_position
        != FRAME_BITS {
        let p = s.bit_position;
        let b = pulse_bit(s.current_pause);
        assert forall|j: u64| 0 <= j < 64 implies word_bit(s2.frame_word, j) == (word_bit(
            s.frame_word,
            j,
        ) || (b && j == p)) by {
            if b {
                lemma_or_bit(s.frame_word, p as u64, j);
            }
        }
        assert(s2.bits() =~= s.bits().push(b));
    }
}

/// The accepting flag moves only with its events: it is raised exactly
/// by the first minute mark and cleared exactly by an overrun; and a
/// publication hands out the accumulated word exactly once — the buffer
/// restarts empty in the same tick.
pub proof fn lemma_start_flag_transitions(s: PulseClassifier, level: bool)
    ensures
        !s.start_detected && spec_submit(s, level).0.start_detected ==> spec_submit(s, level).1 is
            FirstMark,
        s.start_detected && !spec_submit(s, level).0.start_detected ==> spec_submit(s, level).1 is
            Overrun,
        spec_submit(s, level).1 matches ClassifierEvent::FramePublished(w) ==> w == s.frame_word
            && spec_submit(s, level).0.frame_word == 0 && spec_submit(s, level).0.bit_position == 0
            && s.start_detected,
        spec_submit(s, level).1 matches ClassifierEvent::Overrun(w) ==> w == s.frame_word
            && spec_submit(s, level).0.frame_word == 0 && spec_submit(s, level).0.bit_position == 0,
{
}

/// The classifier state after feeding a sequence of debounced levels,
/// first element first.
pub open spec fn run_classifier(s: PulseClassifier, input: Seq<bool>) -> PulseClassifier
    decreases input.len(),
{
    if input.len() == 0 {
        s
    } else {
        run_classifier(spec_submit(s, input[0]).0, input.skip(1))
    }
}

/// The events a run produces, in order, one per sample.
pub open spec fn run_events(s: PulseClassifier, input: Seq<bool>) -> Seq<ClassifierEvent>
    decreases input.len(),
{
    if input.len() == 0 {
        Seq::empty()
    } else {
        seq![spec_submit(s, input[0]).1] + run_events(spec_submit(s, input[0]).0, input.skip(1))
    }
}

/// A run produces one event per sample.
pub proof fn lemma_run_events_len(s: PulseClassifier, input: Seq<bool>)
    ensures
        run_events(s, input).len() == input.len(),
    decreases input.len(),
{
    if input.len() > 0 {
        lemma_run_events_len(spec_submit(s, input[0]).0, input.skip(1));
    }
}

/// Whether a run stays inside one minute: every tick is quiet or
/// deposits a bit — no mark, no overrun.
pub open spec fn deposits_only(s: PulseClassifier, input: Seq<bool>) -> bool {
    forall|k: int|
        0 <= k < input.len() ==> (#[trigger] run_events(s, input)[k] is Quiet || run_events(
            s,
            input,
        )[k] is BitStored || run_events(s, input)[k] is OutOfBandStored)
}

/// The bit values a run deposits, in deposit order.
pub open spec fn deposited_bits(s: PulseClassifier, input: Seq<bool>) -> Seq<bool>
    decreases input.len(),
{
    if input.len() == 0 {
        Seq::empty()
    } else {
        (match spec_submit(s, input[0]).1 {
            ClassifierEvent::BitStored(b) => seq![b],
            ClassifierEvent::OutOfBandStored => seq![false],
            _ => Seq::<bool>::empty(),
        }) + deposited_bits(spec_submit(s, input[0]).0, input.skip(1))
    }
}

/// Across any run without marks or overruns, the assembler appends the
/// deposited bits, in order, to what it already held, and stays in the
/// accepting state.
pub proof fn lemma_run_accumulates(s: PulseClassifier, input: Seq<bool>)
    requires
        s.wf(),
        s.start_detected,
        deposits_only(s, input),
    ensures
        run_classifier(s, input).wf(),
        run_classifier(s, input).start_detected,
        run_classifier(s, input).bits() =~= s.bits() + deposited_bits(s, input),
    decreases input.len(),
{
    if input.len() == 0 {
        assert(run_classifier(s, input).bits() =~= s.bits() + deposited_bits(s, input));
    } else {
        let s1 = spec_submit(s, input[0]).0;
        let e0 = spec_submit(s, input[0]).1;
        lemma_submit_wf(s, input[0]);
        lemma_run_events_len(s1, input.skip(1));
        assert(run_events(s, input)[0] == e0);
        assert(e0 is Quiet || e0 is BitStored || e0 is OutOfBandStored);
        assert(s1.start_detected);
        assert forall|k: int|
            0 <= k < input.skip(1).len() implies (#[trigger] run_events(s1, input.skip(1))[k] is
        Quiet || run_events(s1, input.skip(1))[k] is BitStored || run_events(s1, input.skip(1))[k] is
        OutOfBandStored) by {
            assert(run_events(s, input)[k + 1] == run_events(s1, input.skip(1))[k]);
        }
        lemma_run_accumulates(s1, input.skip(1));
        assert(run_classifier(s, input) == run_classifier(s1, input.skip(1)));
        assert(run_classifier(s, input).bits() =~= s.bits() + deposited_bits(s, input));
    }
}

/// The frame published at a minute mark holds exactly the bits deposited
/// since the previous mark: position `i` carries the bit of second `i`,
/// and nothing above the 59 deposited positions is set. Starting right
/// after a mark, any run of quiet ticks and 59 deposits, closed by the
/// long high phase of the next mark, publishes such a word exactly once.
pub proof fn lemma_published_frame_carries_bits(s: PulseClassifier, input: Seq<bool>, level: bool)
    requires
        s.wf(),
        s.start_detected,
        s.bit_position == 0,
        s.frame_word == 0,
        deposits_only(s, input),
        deposited_bits(s, input).len() == FRAME_BITS,
        level != run_classifier(s, input).current_level,
        run_classifier(s, input).current_level,
        run_classifier(s, input).current_pause > MINUTE_GAP_TICKS,
    ensures
        spec_submit(run_classifier(s, input), level).1 == ClassifierEvent::FramePublished(
            run_classifier(s, input).frame_word,
        ),
        forall|i: int|
            0 <= i < FRAME_BITS ==> word_bit(
                run_classifier(s, input).frame_word,
                i as u64,
            ) == deposited_bits(s, input)[i],
        forall|j: u64| FRAME_BITS <= j < 64 ==> !word_bit(run_classifier(s, input).frame_word, j),
        spec_submit(run_classifier(s, input), level).0.bit_position == 0,
        spec_submit(run_classifier(s, input), level).0.frame_word == 0,
{
    lemma_run_accumulates(s, input);
    let sn = run_classifier(s, input);
    assert(s.bits() =~= Seq::<bool>::empty());
    assert(sn.bits() =~= deposited_bits(s, input));
    assert(sn.bit_position == FRAME_BITS);
    assert forall|i: int| 0 <= i < FRAME_BITS implies word_bit(sn.frame_word, i as u64)
        == deposited_bits(s, input)[i] by {
        assert(sn.bits()[i] == deposited_bits(s, input)[i]);
    }
}

} // verus!
