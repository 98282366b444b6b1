//! A repeating interval timer advanced once per simulation tick by the
//! elapsed wall-clock time.
//!
//! The timer fires at most once per tick: when the accumulated elapsed time
//! reaches the interval it reports a completion and resets to the start of
//! the next interval, even if the tick's delta spanned several intervals
//! (frame-rate-dependent skipping).

use vstd::prelude::*;

verus! {

#[derive(Clone, Copy, PartialEq, Eq, Structural, Debug)]
pub struct RepeatingTimer {
    /// Interval between completions, in milliseconds; always at least 1.
    pub interval_ms: u64,
    /// Time accumulated since the last completion; always below the interval.
    pub elapsed_ms: u64,
}

impl RepeatingTimer {
    pub open spec fn wf(self) -> bool {
        &&& self.interval_ms >= 1
        &&& self.elapsed_ms < self.interval_ms
    }

    pub open spec fn interval(self) -> u64 {
        self.interval_ms
    }

    pub open spec fn elapsed(self) -> u64 {
        self.elapsed_ms
    }

    /// Whether advancing a timer in this state by `delta_ms` completes it.
    pub open spec fn completes(self, delta_ms: u64) -> bool {
        self.elapsed_ms + delta_ms >= self.interval_ms
    }

    /// The timer's state after one tick of `delta_ms`: the accumulator
    /// restarts on a completion and grows by the delta otherwise.
    pub open spec fn ticked(self, delta_ms: u64) -> Self {
        if self.completes(delta_ms) {
            RepeatingTimer { interval_ms: self.interval_ms, elapsed_ms: 0 }
        } else {
            RepeatingTimer {
                interval_ms: self.interval_ms,
                elapsed_ms: (self.elapsed_ms + delta_ms) as u64,
            }
        }
    }

    pub fn new(interval_ms: u64) -> (t: Self)
        requires
            interval_ms >= 1,
        ensures
            t.wf(),
            t.interval() == interval_ms,
            t.elapsed() == 0,
    {
        RepeatingTimer { interval_ms, elapsed_ms: 0 }
    }

    /// Advance the timer by the tick's elapsed time. Returns true when the
    /// interval completed this tick; the accumulator then restarts at zero,
    /// so the timer fires at most once per tick.
    pub fn tick(&mut self, delta_ms: u64) -> (fired: bool)
        requires
            old(self).wf(),
        ensures
            final(self).wf(),
            fired == old(self).completes(delta_ms),
            *final(self) == old(self).ticked(delta_ms),
    {
        if delta_ms >= self.interval_ms - self.elapsed_ms {
            self.elapsed_ms = 0;
            true
        } else {
            self.elapsed_ms = self.elapsed_ms + delta_ms;
            false
        }
    }
}

} // verus!
