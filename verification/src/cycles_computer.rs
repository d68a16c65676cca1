//! Conversion from CPU cycle counts to wall-clock milliseconds, fixed
//! by the system clock frequency.

use vstd::prelude::*;

verus! {

/// Converts cycle counts of the free-running core counter into
/// milliseconds.
#[derive(Clone, Copy)]
pub struct CyclesComputer {
    sysclk_hz: u32,
}

impl CyclesComputer {
    /// The system clock frequency this converter was built for.
    pub closed spec fn hz(self) -> u32 {
        self.sysclk_hz
    }

    pub open spec fn wf(self) -> bool {
        self.hz() > 0
    }

    pub fn new(sysclk_hz: u32) -> (r: Self)
        requires
            sysclk_hz > 0,
        ensures
            r.hz() == sysclk_hz,
            r.wf(),
    {
        CyclesComputer { sysclk_hz }
    }

    /// Milliseconds that `cycles` core cycles span, rounded down.
    pub fn from_cycles(&self, cycles: u32) -> (ms: u64)
        requires
            self.wf(),
        ensures
            ms == (cycles as int) * 1000 / (self.hz() as int),
    {
        ((cycles as u64) * 1000) / (self.sysclk_hz as u64)
    }
}

} // verus!
