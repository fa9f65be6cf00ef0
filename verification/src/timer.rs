//! A repeating countdown: drives the goblin wave schedule. The timer fires
//! when the tick's delta consumes what remained of the current period, and
//! the overshoot wraps around modulo the period, so long deltas do not
//! stretch the schedule.

use vstd::prelude::*;
use crate::math::DT_MAX;

verus! {

#[derive(Clone, Copy, Debug, PartialEq, Eq, Structural)]
pub struct IntervalTimer {
    /// Length of one repetition; never zero.
    pub period: u64,
    /// Time left until the next firing, in `(0, period]`.
    pub remaining: u64,
}

/// Does a tick of `dt` milliseconds consume the rest of the period?
pub open spec fn timer_fires(t: IntervalTimer, dt: int) -> bool {
    dt >= t.remaining
}

/// The timer after a tick of `dt`: either plain countdown, or a wrap of
/// the overshoot around the period.
pub open spec fn timer_after(t: IntervalTimer, dt: int) -> IntervalTimer {
    if dt < t.remaining {
        IntervalTimer { remaining: (t.remaining - dt) as u64, ..t }
    } else {
        IntervalTimer { remaining: (t.period - (dt - t.remaining) % (t.period as int)) as u64, ..t }
    }
}

impl IntervalTimer {
    pub open spec fn wf(self) -> bool {
        1 <= self.remaining <= self.period
    }

    /// A fresh timer that first fires a full `period` from now.
    pub fn new(period: u64) -> (t: IntervalTimer)
        requires
            period >= 1,
        ensures
            t == (IntervalTimer { period, remaining: period }),
            t.wf(),
    {
        IntervalTimer { period, remaining: period }
    }

    /// Advances the timer by `dt` and reports whether it fired.
    pub fn tick(&mut self, dt: u64) -> (fired: bool)
        requires
            old(self).wf(),
            dt <= DT_MAX,
        ensures
            fired == timer_fires(*old(self), dt as int),
            *final(self) == timer_after(*old(self), dt as int),
            final(self).wf(),
    {
        if dt < self.remaining {
            self.remaining = self.remaining - dt;
            false
        } else {
            let over: u64 = dt - self.remaining;
            self.remaining = self.period - over % self.period;
            true
        }
    }
}

} // verus!
