//! Countdown clocks: the one timing primitive every subsystem reuses.

use vstd::prelude::*;

verus! {

use crate::MAX_TICK_MS;

/// Largest duration (in ms) a clock may be created with.
pub const MAX_DURATION_MS: u32 = 100_000_000;

/// A countdown over whole milliseconds. A repeating clock wraps around and
/// keeps the overshoot; a one-shot clock saturates at its duration and then
/// stays finished.
#[derive(Debug, Clone, Copy, PartialEq, Eq, Structural)]
pub struct Clock {
    pub elapsed_ms: u32,
    pub duration_ms: u32,
    pub repeating: bool,
}

impl Clock {
    /// Structural invariant: elapsed time never exceeds the duration, and a
    /// repeating clock has a positive period to wrap over.
    pub open spec fn wf(self) -> bool {
        &&& self.elapsed_ms <= self.duration_ms
        &&& self.duration_ms <= MAX_DURATION_MS
        &&& self.repeating ==> self.duration_ms >= 1
    }

    /// A clock is finished once its whole duration has elapsed.
    pub open spec fn is_finished(self) -> bool {
        self.elapsed_ms >= self.duration_ms
    }

    /// The clock after `delta_ms` more milliseconds, for a one-shot clock:
    /// elapsed time saturates at the duration.
    pub open spec fn ticked(self, delta_ms: int) -> Clock {
        Clock {
            elapsed_ms: if self.elapsed_ms + delta_ms <= self.duration_ms {
                (self.elapsed_ms + delta_ms) as u32
            } else {
                self.duration_ms
            },
            duration_ms: self.duration_ms,
            repeating: self.repeating,
        }
    }

    /// Fraction of the period already elapsed, in thousandths.
    pub open spec fn fraction_milli_spec(self) -> int {
        if self.duration_ms == 0 {
            1000int
        } else {
            self.elapsed_ms * 1000 / self.duration_ms as int
        }
    }

    pub fn new(duration_ms: u32, repeating: bool) -> (c: Clock)
        requires
            duration_ms <= MAX_DURATION_MS,
            repeating ==> duration_ms >= 1,
        ensures
            c.wf(),
            c.elapsed_ms == 0,
            c.duration_ms == duration_ms,
            c.repeating == repeating,
    {
        Clock { elapsed_ms: 0, duration_ms, repeating }
    }

    pub fn finished(&self) -> (r: bool)
        ensures
            r == self.is_finished(),
    {
        self.elapsed_ms >= self.duration_ms
    }

    /// Advance the clock by `delta_ms`. Returns true exactly when the clock
    /// reaches (or, repeating, passes) its duration during this call.
    pub fn tick(&mut self, delta_ms: u32) -> (fired: bool)
        requires
            old(self).wf(),
            delta_ms <= MAX_TICK_MS,
        ensures
            final(self).wf(),
            final(self).duration_ms == old(self).duration_ms,
            final(self).repeating == old(self).repeating,
            old(self).repeating ==> {
                &&& fired == (old(self).elapsed_ms + delta_ms >= old(self).duration_ms)
                &&& final(self).elapsed_ms
                    == (old(self).elapsed_ms + delta_ms) % (old(self).duration_ms as int)
            },
            !old(self).repeating ==> {
                &&& fired == (old(self).elapsed_ms < old(self).duration_ms
                    && old(self).elapsed_ms + delta_ms >= old(self).duration_ms)
                &&& if old(self).elapsed_ms + delta_ms <= old(self).duration_ms {
                    final(self).elapsed_ms == old(self).elapsed_ms + delta_ms
                } else {
                    final(self).elapsed_ms == old(self).duration_ms
                }
            },
    {
        let total: u32 = self.elapsed_ms + delta_ms;
        if self.repeating {
            let fired = total >= self.duration_ms;
            self.elapsed_ms = total % self.duration_ms;
            fired
        } else {
            let fired = self.elapsed_ms < self.duration_ms && total >= self.duration_ms;
            self.elapsed_ms = if total < self.duration_ms {
                total
            } else {
                self.duration_ms
            };
            fired
        }
    }

    /// Fraction of the period already elapsed, in thousandths; at most 1000.
    pub fn fraction_milli(&self) -> (r: i64)
        requires
            self.wf(),
        ensures
            r == self.fraction_milli_spec(),
            0 <= r <= 1000,
    {
        if self.duration_ms == 0 {
            1000
        } else {
            let r: u64 = self.elapsed_ms as u64 * 1000 / self.duration_ms as u64;
            proof {
                assert(self.elapsed_ms as int * 1000 <= self.duration_ms as int * 1000)
                    by (nonlinear_arith)
                    requires
                        self.elapsed_ms <= self.duration_ms,
                ;
                assert(self.elapsed_ms as int * 1000 / self.duration_ms as int <= 1000)
                    by (nonlinear_arith)
                    requires
                        self.elapsed_ms as int * 1000 <= self.duration_ms as int * 1000,
                        self.duration_ms >= 1,
                ;
            }
            r as i64
        }
    }
}

} // verus!
