//! Pacing: how long a window of states lasts on the hardware.

use vstd::prelude::*;

verus! {

/// States per second of the processor that is emulated.
pub const CPUCLOCK: u64 = 20_000_000;

/// States after which a window is full and the run pauses.
pub const WINDOW_STATES: usize = 14_000;

/// Nanoseconds that one state lasts at `CPUCLOCK`.
pub const STATE_NANOS: u64 = 50;

/// `value`, or the largest `u64` where it is more than that.
pub open spec fn capped(value: int) -> u64 {
    if value > u64::MAX {
        u64::MAX
    } else {
        value as u64
    }
}

/// Nanoseconds that `states` states last on the processor that is
/// emulated.
pub open spec fn ideal_nanos(states: int) -> int {
    states * 1_000_000_000 / (CPUCLOCK as int)
}

/// Nanoseconds still to wait after `elapsed` of `ideal` have passed.
pub open spec fn remaining_nanos(ideal: int, elapsed: int) -> int {
    if ideal > elapsed {
        ideal - elapsed
    } else {
        0
    }
}

/// Counts the states of the instructions that ran: in all, and since the
/// last pause.
pub struct Pacer {
    pub window: usize,
    pub total: u64,
}

impl Pacer {
    /// A pacer that has counted nothing.
    pub fn new() -> (pacer: Pacer)
        ensures
            pacer.window == 0,
            pacer.total == 0,
    {
        Pacer { window: 0, total: 0 }
    }

    /// Counts `states` states. Where that fills the window, returns the
    /// nanoseconds that the window lasts on the processor that is emulated,
    /// and starts a new window. Both counts stop at the largest `u64`.
    pub fn record(&mut self, states: usize) -> (pause: Option<u64>)
        ensures
            final(self).total == capped(old(self).total + states),
            old(self).window + states >= WINDOW_STATES ==> final(self).window == 0 && pause
                == Some(capped(ideal_nanos(old(self).window + states))),
            old(self).window + states < WINDOW_STATES ==> final(self).window == old(self).window
                + states && pause.is_none(),
    {
        self.total = match self.total.checked_add(states as u64) {
            Some(total) => total,
            None => u64::MAX,
        };
        let filled: u64 = match (self.window as u64).checked_add(states as u64) {
            Some(filled) => filled,
            None => u64::MAX,
        };
        if filled >= WINDOW_STATES as u64 {
            self.window = 0;
            match filled.checked_mul(STATE_NANOS) {
                Some(nanos) => Some(nanos),
                None => Some(u64::MAX),
            }
        } else {
            self.window = filled as usize;
            None
        }
    }

    /// Nanoseconds still to wait at the end of a window that lasts `ideal`
    /// nanoseconds and took `elapsed`.
    pub fn remainder(ideal: u64, elapsed: u64) -> (wait: u64)
        ensures
            wait == remaining_nanos(ideal as int, elapsed as int),
    {
        if ideal > elapsed {
            ideal - elapsed
        } else {
            0
        }
    }
}

} // verus!
