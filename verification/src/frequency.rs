//! Timer-slot locator: records in which of ten timer slots per second a
//! signal edge was seen, over three rounds, and identifies the slot that
//! fired most often.

use vstd::prelude::*;

verus! {

broadcast use vstd::array::group_array_axioms;

/// Timer expirations per second: the slot grid.
pub const TIMEOUTS_PER_SEC: usize = 10;

/// Rounds of observation kept.
pub const CYCLE_ROUNDS: usize = 3;

/// What the timer ISR reports: a period elapsed, or a signal edge seen
/// at some tick count.
#[derive(Clone, Copy, PartialEq, Eq, Structural, Debug)]
pub enum ClockEvent {
    TimerExpired,
    SignalDetected(u32),
}

/// Slot observation table: one cell per (round, slot), filled in order,
/// holding the tick count of the signal seen during that slot, if any.
pub struct Timing {
    /// Cells filled so far, 0..=30.
    pub counter: u32,
    /// The observation table.
    pub state: [[Option<u32>; TIMEOUTS_PER_SEC]; CYCLE_ROUNDS],
    /// The signal seen since the last timer expiry, if any.
    pub last_signal: Option<u32>,
}

/// How many of the first `rows` rounds saw a signal in slot `i`.
pub open spec fn hits_upto(t: Timing, i: int, rows: int) -> int
    decreases rows,
{
    if rows <= 0 {
        0
    } else {
        hits_upto(t, i, rows - 1) + if t.state[rows - 1][i] is Some {
            1int
        } else {
            0int
        }
    }
}

/// How many rounds saw a signal in slot `i`.
pub open spec fn slot_hits(t: Timing, i: int) -> int {
    hits_upto(t, i, CYCLE_ROUNDS as int)
}

impl Default for Timing {
    fn default() -> (r: Self)
        ensures
            r.counter == 0,
            r.last_signal is None,
            forall|c: int, s: int|
                0 <= c < CYCLE_ROUNDS && 0 <= s < TIMEOUTS_PER_SEC ==> r.state[c][s] is None,
    {
        Self::new()
    }
}

impl Timing {
    pub fn new() -> (r: Self)
        ensures
            r.counter == 0,
            r.last_signal is None,
            forall|c: int, s: int|
                0 <= c < CYCLE_ROUNDS && 0 <= s < TIMEOUTS_PER_SEC ==> r.state[c][s] is None,
    {
        Self { counter: 0, state: [[None; TIMEOUTS_PER_SEC]; CYCLE_ROUNDS], last_signal: None }
    }

    /// A detected signal is remembered; a timer expiry files it into the
    /// next cell, while the table still has room, and clears it.
    pub fn event(&mut self, e: ClockEvent)
        ensures
            e matches ClockEvent::SignalDetected(ticks) ==> final(self).last_signal == Some(ticks)
                && final(self).counter == old(self).counter && final(self).state == old(self).state,
            e is TimerExpired && old(self).counter >= (TIMEOUTS_PER_SEC * CYCLE_ROUNDS)
                ==> *final(self) == *old(self),
            e is TimerExpired && old(self).counter < (TIMEOUTS_PER_SEC * CYCLE_ROUNDS) ==> {
                let cycle = old(self).counter as int / TIMEOUTS_PER_SEC as int;
                let cycle_index = old(self).counter as int % TIMEOUTS_PER_SEC as int;
                &&& final(self).counter == old(self).counter + 1
                &&& final(self).last_signal is None
                &&& (forall|c: int|
                    0 <= c < CYCLE_ROUNDS && c != cycle ==> final(self).state[c] == old(
                        self,
                    ).state[c])
                &&& final(self).state[cycle]@ == old(self).state[cycle]@.update(
                    cycle_index,
                    old(self).last_signal,
                )
            },
    {
        match e {
            ClockEvent::SignalDetected(ticks) => {
                self.last_signal = Some(ticks);
            },
            ClockEvent::TimerExpired => {
                if self.counter < (TIMEOUTS_PER_SEC * CYCLE_ROUNDS) as u32 {
                    let cycle = self.counter as usize / TIMEOUTS_PER_SEC;
                    let cycle_index = self.counter as usize % TIMEOUTS_PER_SEC;
                    let mut row = self.state[cycle];
                    row[cycle_index] = self.last_signal;
                    self.state[cycle] = row;
                    self.last_signal = None;
                    self.counter = self.counter + 1;
                }
            },
        }
    }

    /// The slot that saw a signal in the most rounds; among equally
    /// frequent slots, the last. There are slots, so there is always an
    /// answer.
    pub fn identify_slot(&self) -> (r: Option<usize>)
        ensures
            r is Some,
            r matches Some(i) ==> i < TIMEOUTS_PER_SEC && (forall|j: int|
                0 <= j < TIMEOUTS_PER_SEC ==> slot_hits(*self, j) <= slot_hits(*self, i as int))
                && (forall|j: int|
                i < j < TIMEOUTS_PER_SEC ==> slot_hits(*self, j) < slot_hits(*self, i as int)),
    {
        let mut summed: [u8; TIMEOUTS_PER_SEC] = [0; TIMEOUTS_PER_SEC];
        let mut i: usize = 0;
        while i < TIMEOUTS_PER_SEC
            invariant
                i <= TIMEOUTS_PER_SEC,
                summed@.len() == TIMEOUTS_PER_SEC,
                forall|s: int| 0 <= s < i ==> summed[s] as int == slot_hits(*self, s),
            decreases TIMEOUTS_PER_SEC - i,
        {
            let mut sum: u8 = 0;
            let mut j: usize = 0;
            while j < CYCLE_ROUNDS
                invariant
                    j <= CYCLE_ROUNDS,
                    i < TIMEOUTS_PER_SEC,
                    sum <= j,
                    sum as int == hits_upto(*self, i as int, j as int),
                decreases CYCLE_ROUNDS - j,
            {
                if self.state[j][i].is_some() {
                    sum = sum + 1;
                }
                j = j + 1;
            }
            summed[i] = sum;
            i = i + 1;
        }
        index_of_max(&summed)
    }
}

/// Reload value of the one-second bin timer: a thousand bins, doubled
/// because the prescaler alone cannot stretch the count to a second.
pub const BIN_TIMER_RELOAD: u32 = 1998;

/// Divisor pair for the bin timer: the reload value and the prescaler
/// that together make the counter sweep its range once per second of
/// the given timer clock.
pub fn bin_timer_divisors(timer_clock_hz: u32) -> (r: (u32, u16))
    requires
        timer_clock_hz >= BIN_TIMER_RELOAD,
        timer_clock_hz as int / BIN_TIMER_RELOAD as int - 1 <= u16::MAX,
    ensures
        r.0 == BIN_TIMER_RELOAD,
        r.1 as int == timer_clock_hz as int / BIN_TIMER_RELOAD as int - 1,
{
    let psc = (timer_clock_hz / BIN_TIMER_RELOAD - 1) as u16;
    (BIN_TIMER_RELOAD, psc)
}

/// The index of the largest value; among equal maxima, the last. `None`
/// only on an empty slice.
pub fn index_of_max(values: &[u8]) -> (r: Option<usize>)
    ensures
        r is None <==> values@.len() == 0,
        r matches Some(i) ==> i < values@.len() && (forall|j: int|
            0 <= j < values@.len() ==> values@[j] <= values@[i as int]) && (forall|j: int|
            i < j < values@.len() ==> values@[j] < values@[i as int]),
{
    if values.len() == 0 {
        return None;
    }
    let mut best: usize = 0;
    let mut k: usize = 1;
    while k < values.len()
        invariant
            best < k <= values@.len(),
            forall|j: int| 0 <= j < k ==> values@[j] <= values@[best as int],
            forall|j: int| best < j < k ==> values@[j] < values@[best as int],
        decreases values@.len() - k,
    {
        if values[k] >= values[best] {
            best = k;
        }
        k = k + 1;
    }
    Some(best)
}

} // verus!
