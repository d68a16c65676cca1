//! Edge-binning phase locator and edge-driven decoder front end.
//!
//! Up- and down-edges captured by a hardware counter are accumulated in
//! a histogram indexed by the counter value; only edges close to the
//! learned up-edge and down-edge phases are forwarded, everything else
//! is treated as noise. A forwarded edge pair is measured in cycles and
//! classified by its width in milliseconds.

use vstd::prelude::*;

verus! {

broadcast use vstd::array::group_array_axioms;

use crate::cycles_computer::CyclesComputer;

/// Histogram bins: counter values are divided by four into 0..250.
pub const BIN_COUNT: usize = 250;

/// How close, in bins, an edge must fall to the learned phase.
pub const MARGIN: usize = 5;

/// An edge pair arrived in an impossible order.
#[derive(Clone, Copy, PartialEq, Eq, Structural, Debug)]
pub enum DecoderError {
    WrongTransition,
}

/// Direction of a line transition.
#[derive(PartialEq, Eq, Structural, Debug, Clone, Copy)]
pub enum Edge {
    Up,
    Down,
}

/// The edge direction a low-to-high flag denotes.
pub open spec fn edge_of(low_to_high: bool) -> Edge {
    if low_to_high {
        Edge::Up
    } else {
        Edge::Down
    }
}

impl Edge {
    pub fn new(low_to_high: bool) -> (r: Self)
        ensures
            r == edge_of(low_to_high),
    {
        if low_to_high {
            Edge::Up
        } else {
            Edge::Down
        }
    }
}

/// A signed-8-bit count one higher, saturating.
pub open spec fn sat_add1(x: i8) -> i8 {
    if x == i8::MAX {
        x
    } else {
        (x + 1) as i8
    }
}

/// A signed-8-bit count one lower, saturating.
pub open spec fn sat_sub1(x: i8) -> i8 {
    if x == i8::MIN {
        x
    } else {
        (x - 1) as i8
    }
}

/// Whether two bin indices lie within the phase margin of each other.
pub open spec fn near(a: usize, b: usize) -> bool {
    (if a >= b {
        a - b
    } else {
        b - a
    }) < MARGIN
}

/// Histogram of edge phases: up-edges count +1, down-edges −1, with
/// running extremes. Bins saturate and are halved — floor division,
/// preserving relative magnitudes — when either extreme exceeds half
/// the signed-8-bit range.
pub struct Binning {
    /// Edge balance per phase bin.
    pub bins: [i8; BIN_COUNT],
    /// Bin of the largest positive count seen, once one exists.
    pub max_index: Option<usize>,
    /// Largest positive count seen, halved along with the bins.
    pub max_val: i8,
    /// Bin of the most negative count seen, once one exists.
    pub min_index: Option<usize>,
    /// Most negative count seen, halved along with the bins.
    pub min_val: i8,
}

/// How one recorded edge transforms the histogram: the touched bin
/// moves one step saturating, the running extreme follows it, and a
/// down-edge that leaves an extreme past half the signed-8-bit range
/// halves every bin and both extremes.
pub open spec fn add_edge_rel(s: Binning, t: Binning, bin: u32, edge: Edge) -> bool {
    let idx = (bin >> 2) as int;
    &&& (edge == Edge::Up ==> {
        let v = sat_add1(s.bins[idx]);
        &&& t.bins@ == s.bins@.update(idx, v)
        &&& (v > s.max_val ==> t.max_val == v && t.max_index == Some(idx as usize))
        &&& (v <= s.max_val ==> t.max_val == s.max_val && t.max_index == s.max_index)
        &&& t.min_val == s.min_val
        &&& t.min_index == s.min_index
    })
    &&& (edge == Edge::Down ==> {
        let v = sat_sub1(s.bins[idx]);
        let mn = if v < s.min_val {
            v
        } else {
            s.min_val
        };
        let mni = if v < s.min_val {
            Some(idx as usize)
        } else {
            s.min_index
        };
        &&& t.max_index == s.max_index
        &&& t.min_index == mni
        &&& (!(s.max_val >= 64 || mn <= -64) ==> t.bins@ == s.bins@.update(idx, v)
            && t.max_val == s.max_val && t.min_val == mn)
        &&& ((s.max_val >= 64 || mn <= -64) ==> {
            &&& t.bins@.len() == BIN_COUNT
            &&& (forall|i: int|
                0 <= i < BIN_COUNT && i != idx ==> t.bins[i] as int == (s.bins[i] as int) / 2)
            &&& t.bins[idx] as int == (v as int) / 2
            &&& t.max_val as int == (s.max_val as int) / 2
            &&& t.min_val as int == (mn as int) / 2
        })
    })
}

/// Whether the freshly recorded edge is forwarded: both phases must be
/// learned, one extreme must be past the noise threshold, and the edge
/// must fall within the margin of its own phase.
pub open spec fn rated(t: Binning, idx: usize, edge: Edge) -> bool {
    &&& t.max_index is Some
    &&& t.min_index is Some
    &&& (t.max_val > 5 || t.min_val < -5)
    &&& (if edge == Edge::Up {
        near(t.max_index.unwrap(), idx)
    } else {
        near(t.min_index.unwrap(), idx)
    })
}

/// Halves a signed count, rounding toward negative infinity, as an
/// arithmetic right shift would.
fn half_i8(x: i8) -> (r: i8)
    ensures
        r as int == (x as int) / 2,
{
    if x >= 0 {
        ((x as u8) / 2) as i8
    } else {
        let m = (-(x as i16)) as u8;
        let h = (m + 1) / 2;
        -(h as i8)
    }
}

impl Default for Binning {
    /// An empty histogram: no counts, no learned phases.
    fn default() -> (r: Self)
        ensures
            r.wf(),
            r.max_index is None,
            r.min_index is None,
            r.max_val == 0,
            r.min_val == 0,
            forall|i: int| 0 <= i < BIN_COUNT ==> r.bins[i] == 0,
    {
        Binning { bins: [0; BIN_COUNT], max_index: None, max_val: 0, min_index: None, min_val: 0 }
    }
}

impl Binning {
    /// The running extremes keep their signs and their indices stay
    /// inside the histogram.
    pub open spec fn wf(self) -> bool {
        &&& self.max_val >= 0
        &&& self.min_val <= 0
        &&& (self.max_index matches Some(i) ==> i < BIN_COUNT)
        &&& (self.min_index matches Some(i) ==> i < BIN_COUNT)
    }

    /// Records one edge at the given raw counter bin and rates it.
    pub fn add_edge(&mut self, bin: u32, edge: Edge) -> (r: Option<Edge>)
        requires
            old(self).wf(),
            bin < 1000,
        ensures
            final(self).wf(),
            add_edge_rel(*old(self), *final(self), bin, edge),
            r == (if rated(*final(self), (bin >> 2) as usize, edge) {
                Some(edge)
            } else {
                None::<Edge>
            }),
    {
        proof {
            assert(bin >> 2 < 250) by (bit_vector)
                requires
                    bin < 1000,
            ;
        }
        let idx = (bin >> 2) as usize;
        if edge == Edge::Up {
            let v = if self.bins[idx] == i8::MAX {
                self.bins[idx]
            } else {
                self.bins[idx] + 1
            };
            self.bins[idx] = v;
            if v > self.max_val {
                self.max_val = v;
                self.max_index = Some(idx);
            }
        } else {
            let v = if self.bins[idx] == i8::MIN {
                self.bins[idx]
            } else {
                self.bins[idx] - 1
            };
            self.bins[idx] = v;
            if v < self.min_val {
                self.min_val = v;
                self.min_index = Some(idx);
            }
            self.scale_bins_if_needed();
        }
        self.rate_edge(idx, edge)
    }

    /// Halves every bin and both extremes once either extreme exceeds
    /// half the signed-8-bit range, keeping relative magnitudes.
    pub fn scale_bins_if_needed(&mut self)
        requires
            old(self).wf(),
        ensures
            final(self).wf(),
            final(self).max_index == old(self).max_index,
            final(self).min_index == old(self).min_index,
            (old(self).max_val >= 64 || old(self).min_val <= -64) ==> {
                &&& final(self).bins@.len() == BIN_COUNT
                &&& (forall|i: int|
                    0 <= i < BIN_COUNT ==> final(self).bins[i] as int == (old(self).bins[i]
                        as int) / 2)
                &&& final(self).max_val as int == (old(self).max_val as int) / 2
                &&& final(self).min_val as int == (old(self).min_val as int) / 2
            },
            !(old(self).max_val >= 64 || old(self).min_val <= -64) ==> *final(self) == *old(
                self,
            ),
    {
        if self.max_val >= 64 || self.min_val <= -64 {
            self.max_val = half_i8(self.max_val);
            self.min_val = half_i8(self.min_val);
            let mut i: usize = 0;
            while i < BIN_COUNT
                invariant
                    i <= BIN_COUNT,
                    self.bins@.len() == BIN_COUNT,
                    self.max_index == old(self).max_index,
                    self.min_index == old(self).min_index,
                    self.max_val as int == (old(self).max_val as int) / 2,
                    self.min_val as int == (old(self).min_val as int) / 2,
                    old(self).max_val >= 0,
                    old(self).min_val <= 0,
                    forall|j: int| 0 <= j < i ==> self.bins[j] as int == (old(self).bins[j] as int) / 2,
                    forall|j: int| i <= j < BIN_COUNT ==> self.bins[j] == old(self).bins[j],
                decreases BIN_COUNT - i,
            {
                self.bins[i] = half_i8(self.bins[i]);
                i = i + 1;
            }
        }
    }

    /// Rates an edge against the learned phases: forwarded only when it
    /// falls within the margin of its own extreme and the histogram is
    /// confident enough.
    pub fn rate_edge(&self, bin: usize, edge: Edge) -> (r: Option<Edge>)
        ensures
            r == (if rated(*self, bin, edge) {
                Some(edge)
            } else {
                None::<Edge>
            }),
    {
        match (self.max_index, self.min_index) {
            (Some(max_index), Some(min_index)) => {
                if self.max_val > 5 || self.min_val < -5 {
                    if edge == Edge::Up {
                        let d = if max_index >= bin {
                            max_index - bin
                        } else {
                            bin - max_index
                        };
                        if d < MARGIN {
                            return Some(edge);
                        }
                    } else {
                        let d = if min_index >= bin {
                            min_index - bin
                        } else {
                            bin - min_index
                        };
                        if d < MARGIN {
                            return Some(edge);
                        }
                    }
                }
                None
            },
            _ => None,
        }
    }
}

/// What one registered transition was judged to be.
#[derive(Clone, Copy, PartialEq, Eq, Structural, Debug)]
pub enum TransitionEvent {
    /// The edge fell outside the learned phases and was dropped.
    Noise,
    /// A low pulse ended: its width in milliseconds, and its code — 0
    /// or 1 for the two bands, 3 for an out-of-band width.
    PulseEnd { millis: u64, bit: u8 },
    /// A high phase ended: its width, and whether it was long enough to
    /// be the minute mark.
    GapEnd { millis: u64, minute_mark: bool },
}

/// Cycles elapsed from `last` to `now` on a wrapping 32-bit counter.
pub open spec fn wrapped_cycles(now: u32, last: u32) -> int {
    if now >= last {
        now - last
    } else {
        now - last + 0x1_0000_0000
    }
}

/// Milliseconds the elapsed cycles span at the given clock frequency.
pub open spec fn elapsed_ms(hz: u32, now: u32, last: u32) -> int {
    wrapped_cycles(now, last) * 1000 / (hz as int)
}

/// The code of a low pulse by its width: 0 in the 600–1400 hundred-
/// microsecond band, 1 in the 1600–2400 band, 3 outside both.
pub open spec fn pulse_code(ms: int) -> u8 {
    if 60 <= ms <= 140 {
        0
    } else if 160 <= ms <= 240 {
        1
    } else {
        3
    }
}

/// Cycles elapsed on the wrapping counter, computed without overflow.
fn wrapping_cycles_since(now: u32, last: u32) -> (d: u32)
    ensures
        d as int == wrapped_cycles(now, last),
{
    if now >= last {
        now - last
    } else {
        (u32::MAX - last) + now + 1
    }
}

/// Edge-driven decoder front end: learns edge phases through the
/// histogram, times forwarded edge pairs and classifies their widths.
pub struct DCF77Decoder {
    /// Counter stamp of the last forwarded high-to-low edge.
    pub last_high_to_low: Option<u32>,
    /// Counter stamp of the last forwarded low-to-high edge.
    pub last_low_to_high: Option<u32>,
    /// Converts counter cycles to milliseconds.
    pub cycles_computer: CyclesComputer,
    /// The phase histogram.
    pub bins: Binning,
}

impl DCF77Decoder {
    pub open spec fn wf(self) -> bool {
        self.bins.wf() && self.cycles_computer.wf()
    }

    pub fn new(cycles_computer: CyclesComputer) -> (r: Self)
        requires
            cycles_computer.wf(),
        ensures
            r.wf(),
            r.last_high_to_low is None,
            r.last_low_to_high is None,
            r.cycles_computer == cycles_computer,
            r.bins.max_index is None,
            r.bins.min_index is None,
            r.bins.max_val == 0,
            r.bins.min_val == 0,
            forall|i: int| 0 <= i < BIN_COUNT ==> r.bins.bins[i] == 0,
    {
        Self {
            last_high_to_low: None,
            last_low_to_high: None,
            cycles_computer,
            bins: Binning::default(),
        }
    }

    /// Registers one line transition: records it in the histogram, and
    /// when it is forwarded, times the phase it closes. A low-to-high
    /// edge closes a low pulse and yields its bit code; a high-to-low
    /// edge closes a high phase and reports whether it was the minute
    /// mark. An edge without a recorded opposite edge is an error.
    pub fn register_transition(&mut self, low_to_high: bool, now: u32, bin_idx: u32) -> (r: Result<
        TransitionEvent,
        DecoderError,
    >)
        requires
            old(self).wf(),
            bin_idx < 1000,
        ensures
            final(self).wf(),
            final(self).cycles_computer == old(self).cycles_computer,
            add_edge_rel(old(self).bins, final(self).bins, bin_idx, edge_of(low_to_high)),
            !rated(final(self).bins, (bin_idx >> 2) as usize, edge_of(low_to_high)) ==> r == Ok::<
                TransitionEvent,
                DecoderError,
            >(TransitionEvent::Noise) && final(self).last_high_to_low == old(self).last_high_to_low
                && final(self).last_low_to_high == old(self).last_low_to_high,
            rated(final(self).bins, (bin_idx >> 2) as usize, edge_of(low_to_high)) && low_to_high
                ==> final(self).last_low_to_high == Some(now) && final(self).last_high_to_low is None
                && (match old(self).last_high_to_low {
                Some(last) => r == Ok::<TransitionEvent, DecoderError>(
                    TransitionEvent::PulseEnd {
                        millis: elapsed_ms(old(self).cycles_computer.hz(), now, last) as u64,
                        bit: pulse_code(elapsed_ms(old(self).cycles_computer.hz(), now, last)),
                    },
                ),
                None => r == Err::<TransitionEvent, DecoderError>(DecoderError::WrongTransition),
            }),
            rated(final(self).bins, (bin_idx >> 2) as usize, edge_of(low_to_high)) && !low_to_high
                ==> final(self).last_high_to_low == Some(now) && final(self).last_low_to_high is None
                && (match old(self).last_low_to_high {
                Some(last) => r == Ok::<TransitionEvent, DecoderError>(
                    TransitionEvent::GapEnd {
                        millis: elapsed_ms(old(self).cycles_computer.hz(), now, last) as u64,
                        minute_mark: elapsed_ms(old(self).cycles_computer.hz(), now, last) > 1500,
                    },
                ),
                None => r == Err::<TransitionEvent, DecoderError>(DecoderError::WrongTransition),
            }),
    {
        let edge = Edge::new(low_to_high);
        if self.bins.add_edge(bin_idx, edge).is_none() {
            return Ok(TransitionEvent::Noise);
        }
        if low_to_high {
            let prev = self.last_high_to_low;
            self.last_high_to_low = None;
            self.last_low_to_high = Some(now);
            match prev {
                Some(last) => {
                    let diff = wrapping_cycles_since(now, last);
                    let ms = self.cycles_computer.from_cycles(diff);
                    let bit: u8 = if 60 <= ms && ms <= 140 {
                        0
                    } else if 160 <= ms && ms <= 240 {
                        1
                    } else {
                        3
                    };
                    Ok(TransitionEvent::PulseEnd { millis: ms, bit })
                },
                None => Err(DecoderError::WrongTransition),
            }
        } else {
            let prev = self.last_low_to_high;
            self.last_low_to_high = None;
            self.last_high_to_low = Some(now);
            match prev {
                Some(last) => {
                    let diff = wrapping_cycles_since(now, last);
                    let ms = self.cycles_computer.from_cycles(diff);
                    Ok(TransitionEvent::GapEnd { millis: ms, minute_mark: ms > 1500 })
                },
                None => Err(DecoderError::WrongTransition),
            }
        }
    }
}

} // verus!
