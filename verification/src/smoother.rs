//! Signal smoother: a sliding full-consensus filter over the last
//! `SMOOTHER_DEPTH` raw line samples. The held level flips only when
//! every sample in the window contradicts it, so glitches shorter than
//! the window never reach the pulse classifier.

use vstd::prelude::*;

verus! {

broadcast use vstd::array::group_array_axioms;

/// Number of samples the smoother looks back over. At a 100 Hz sampling
/// rate a full-consensus flip takes 70 ms: longer than any realistic
/// interference spike, shorter than the shortest legitimate pulse.
pub const SMOOTHER_DEPTH: usize = 7;

/// Debounces the raw receiver line; only its output ever reaches the
/// pulse classifier. The initial held level and window are logical-high
/// (the idle carrier).
pub struct Smoother {
    samples: [bool; SMOOTHER_DEPTH],
    held: bool,
}

/// The window after one sample is shifted in and the oldest is dropped.
pub open spec fn step_window(w: Seq<bool>, sample: bool) -> Seq<bool> {
    w.skip(1).push(sample)
}

/// Whether every sample of a window contradicts the held level.
pub open spec fn all_against(w: Seq<bool>, held: bool) -> bool {
    forall|j: int| 0 <= j < w.len() ==> w[j] != held
}

/// The held level after one sample: flipped exactly on full consensus
/// of the new window against it.
pub open spec fn step_held(w: Seq<bool>, held: bool, sample: bool) -> bool {
    if all_against(step_window(w, sample), held) {
        !held
    } else {
        held
    }
}

/// The held level after a whole input sequence is fed, first element
/// first.
pub open spec fn run_held(w: Seq<bool>, held: bool, inputs: Seq<bool>) -> bool
    decreases inputs.len(),
{
    if inputs.len() == 0 {
        held
    } else {
        run_held(step_window(w, inputs[0]), step_held(w, held, inputs[0]), inputs.skip(1))
    }
}

impl Smoother {
    /// The sample window, oldest first.
    pub closed spec fn window(self) -> Seq<bool> {
        self.samples@
    }

    /// The debounced level currently held.
    pub closed spec fn level(self) -> bool {
        self.held
    }

    pub open spec fn wf(self) -> bool {
        self.window().len() == SMOOTHER_DEPTH
    }

    /// Starts at logical-high, the idle state of the carrier.
    pub fn new() -> (r: Smoother)
        ensures
            r.wf(),
            r.level(),
            forall|j: int| 0 <= j < SMOOTHER_DEPTH ==> r.window()[j],
    {
        Smoother { samples: [true; SMOOTHER_DEPTH], held: true }
    }

    /// Shifts the new raw sample in, flips the held level on full
    /// consensus against it, and returns the held level.
    pub fn submit(&mut self, sample: bool) -> (level: bool)
        requires
            old(self).wf(),
        ensures
            final(self).wf(),
            final(self).window() == step_window(old(self).window(), sample),
            final(self).level() == step_held(old(self).window(), old(self).level(), sample),
            level == final(self).level(),
    {
        let mut i: usize = 0;
        while i < SMOOTHER_DEPTH - 1
            invariant
                i <= SMOOTHER_DEPTH - 1,
                self.held == old(self).held,
                self.samples@.len() == SMOOTHER_DEPTH,
                forall|j: int| 0 <= j < i ==> self.samples@[j] == old(self).samples@[j + 1],
                forall|j: int|
                    i <= j < SMOOTHER_DEPTH ==> self.samples@[j] == old(self).samples@[j],
            decreases SMOOTHER_DEPTH - 1 - i,
        {
            self.samples[i] = self.samples[i + 1];
            i = i + 1;
        }
        self.samples[SMOOTHER_DEPTH - 1] = sample;
        assert(self.samples@ =~= step_window(old(self).window(), sample));

        let ghost shifted = self.samples@;
        let mut all_diff: bool = true;
        let mut j: usize = 0;
        while j < SMOOTHER_DEPTH
            invariant
                j <= SMOOTHER_DEPTH,
                self.held == old(self).held,
                self.samples@ == shifted,
                shifted.len() == SMOOTHER_DEPTH,
                all_diff == (forall|t: int| 0 <= t < j ==> shifted[t] != self.held),
            decreases SMOOTHER_DEPTH - j,
        {
            if self.samples[j] == self.held {
                all_diff = false;
            }
            j = j + 1;
        }
        if all_diff {
            self.held = !self.held;
        }
        self.held
    }
}

/// After feeding inputs that all carry `v`, with the part of the window
/// they do not overwrite already holding `v`, the held level is `v`.
proof fn lemma_run_const(w: Seq<bool>, held: bool, inputs: Seq<bool>, v: bool)
    requires
        w.len() == SMOOTHER_DEPTH,
        1 <= inputs.len(),
        forall|i: int| 0 <= i < inputs.len() ==> inputs[i] == v,
        forall|j: int| inputs.len() <= j < SMOOTHER_DEPTH ==> w[j] == v,
    ensures
        run_held(w, held, inputs) == v,
    decreases inputs.len(),
{
    let w2 = step_window(w, inputs[0]);
    let h2 = step_held(w, held, inputs[0]);
    assert(forall|j: int| inputs.len() - 1 <= j < SMOOTHER_DEPTH ==> w2[j] == v);
    if inputs.len() == 1 {
        assert(inputs.skip(1).len() == 0);
        if held == v {
            assert(w2[SMOOTHER_DEPTH - 1] == v);
            assert(!all_against(w2, held));
        } else {
            assert(all_against(w2, held));
        }
        assert(h2 == v);
        assert(run_held(w2, h2, inputs.skip(1)) == h2);
    } else {
        lemma_run_const(w2, h2, inputs.skip(1), v);
    }
}

/// The smoother's output is a function of the last `SMOOTHER_DEPTH`
/// inputs alone whenever those inputs agree: after any full window of
/// samples all carrying `v`, the output is `v`, whatever window and
/// held level — hence whatever input history — came before.
pub proof fn lemma_output_function_of_last_window(
    w: Seq<bool>,
    held: bool,
    inputs: Seq<bool>,
    v: bool,
)
    requires
        w.len() == SMOOTHER_DEPTH,
        inputs.len() == SMOOTHER_DEPTH,
        forall|i: int| 0 <= i < inputs.len() ==> inputs[i] == v,
    ensures
        run_held(w, held, inputs) == v,
{
    lemma_run_const(w, held, inputs, v);
}

} // verus!
