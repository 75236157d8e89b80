//! The step scheduler: an elapsed-time accumulator against a fixed period,
//! deciding once per host cycle whether a generation step fires.
//!
//! Policy: at most one step fires per cycle. When the accumulator reaches the
//! period, the step fires and the accumulator keeps only the remainder modulo
//! the period, exactly as a repeating timer does; surplus whole periods in
//! one oversized delta do not trigger catch-up steps.

use vstd::prelude::*;

verus! {

/// The default step period: a quarter of a second.
pub const DEFAULT_PERIOD_MS: u64 = 250;

/// Milliseconds of simulated time accumulated toward the next step, and the
/// configured period. Time does not advance while the simulation is paused.
pub struct StepScheduler {
    accumulated: u64,
    period: u64,
}

/// `a + b` over u64, saturating at the top of the range.
pub open spec fn sat_add(a: int, b: int) -> int {
    if a + b > u64::MAX {
        u64::MAX as int
    } else {
        a + b
    }
}

impl StepScheduler {
    /// Elapsed time since the last executed step, in milliseconds.
    pub closed spec fn acc(&self) -> int {
        self.accumulated as int
    }

    /// Configured step period in milliseconds.
    pub closed spec fn period_ms(&self) -> int {
        self.period as int
    }

    /// The period is positive; a zero period is rejected at construction.
    pub closed spec fn inv(&self) -> bool {
        self.period >= 1
    }

    /// Whether a cycle with this much new elapsed time makes a step fire.
    pub closed spec fn fires(&self, delta_ms: int) -> bool {
        sat_add(self.acc(), delta_ms) >= self.period_ms()
    }

    /// Builds a scheduler with a fresh accumulator. A degenerate period of
    /// zero is rejected at this boundary by the precondition.
    pub fn new(period_ms: u64) -> (s: StepScheduler)
        requires
            period_ms >= 1,
        ensures
            s.inv(),
            s.acc() == 0,
            s.period_ms() == period_ms,
    {
        StepScheduler { accumulated: 0, period: period_ms }
    }

    /// Elapsed time since the last executed step, in milliseconds.
    pub fn accumulated_ms(&self) -> (a: u64)
        ensures
            a == self.acc(),
    {
        self.accumulated
    }

    /// One scheduling decision. While paused, the accumulator is frozen: it
    /// neither advances nor resets, and no step fires. Otherwise the new
    /// elapsed time is added and a step fires if a full period has passed,
    /// the accumulator keeping the remainder modulo the period.
    pub fn tick(&mut self, delta_ms: u64, is_paused: bool) -> (fired: bool)
        requires
            old(self).inv(),
        ensures
            final(self).inv(),
            final(self).period_ms() == old(self).period_ms(),
            is_paused ==> !fired && *final(self) == *old(self),
            !is_paused ==> {
                &&& fired == old(self).fires(delta_ms as int)
                &&& (fired ==> final(self).acc() == sat_add(old(self).acc(), delta_ms as int)
                    % old(self).period_ms())
                &&& (!fired ==> final(self).acc() == sat_add(old(self).acc(), delta_ms as int))
            },
    {
        if is_paused {
            return false;
        }
        let acc: u64 = if delta_ms > u64::MAX - self.accumulated {
            u64::MAX
        } else {
            self.accumulated + delta_ms
        };
        if acc >= self.period {
            self.accumulated = acc % self.period;
            true
        } else {
            self.accumulated = acc;
            false
        }
    }
}

} // verus!
