//! Wiring of the sampling path: raw samples pass through the smoother,
//! and only the debounced level ever reaches the pulse classifier. The
//! clock disciplinarian decides, from each decode outcome, whether the
//! battery-backed clock is written and keeps the synchronized flag.

use vstd::prelude::*;

verus! {

use crate::smoother::{Smoother, step_window, step_held};
use crate::classifier::{PulseClassifier, ClassifierEvent, spec_submit};

/// The timer-polled sampling path: smoother in front of the classifier.
pub struct SignalPipeline {
    pub smoother: Smoother,
    pub classifier: PulseClassifier,
}

impl SignalPipeline {
    pub open spec fn wf(self) -> bool {
        self.smoother.wf() && self.classifier.wf()
    }

    /// Both stages in their idle-high starting state.
    pub fn new() -> (r: SignalPipeline)
        ensures
            r.wf(),
            r.smoother.level(),
            !r.classifier.start_detected,
            r.classifier.bit_position == 0,
            r.classifier.frame_word == 0,
            r.classifier.current_level,
            r.classifier.current_pause == 0,
    {
        SignalPipeline { smoother: Smoother::new(), classifier: PulseClassifier::new() }
    }

    /// Feeds one raw line sample. The smoother debounces it, and the
    /// classifier sees exactly the debounced level, nothing else.
    pub fn submit_raw(&mut self, raw: bool) -> (ev: ClassifierEvent)
        requires
            old(self).wf(),
        ensures
            final(self).wf(),
            final(self).smoother.window() == step_window(old(self).smoother.window(), raw),
            final(self).smoother.level() == step_held(
                old(self).smoother.window(),
                old(self).smoother.level(),
                raw,
            ),
            (final(self).classifier, ev) == spec_submit(
                old(self).classifier,
                step_held(old(self).smoother.window(), old(self).smoother.level(), raw),
            ),
    {
        let level = self.smoother.submit(raw);
        self.classifier.submit(level)
    }
}

/// Latches synchronization: the first successful decode loads the
/// clock; later failures leave both the clock and the flag alone.
pub struct ClockDiscipline {
    synchronized: bool,
}

impl ClockDiscipline {
    /// Whether a telegram has ever been decoded successfully.
    pub closed spec fn is_synchronized(self) -> bool {
        self.synchronized
    }

    pub fn new() -> (r: ClockDiscipline)
        ensures
            !r.is_synchronized(),
    {
        ClockDiscipline { synchronized: false }
    }

    /// Takes one decode outcome: a success asks for a clock write and
    /// latches the flag; a failure changes nothing — the clock keeps
    /// free-running.
    pub fn on_decode(&mut self, decode_ok: bool) -> (write_rtc: bool)
        ensures
            final(self).is_synchronized() == (old(self).is_synchronized() || decode_ok),
            write_rtc == decode_ok,
    {
        if decode_ok {
            self.synchronized = true;
        }
        decode_ok
    }

    pub fn synchronized(&self) -> (b: bool)
        ensures
            b == self.is_synchronized(),
    {
        self.synchronized
    }
}

} // verus!
