//! Pacing of the timers at their own rate, apart from the cycle rate.
use vstd::prelude::*;

verus! {

/// Turns elapsed time into whole timer ticks of a fixed period, carrying the
/// remainder over to the next call so that no time is lost.
pub struct TimerClock {
    period_ns: u64,
    pending_ns: u64,
}

impl TimerClock {
    /// The length of one tick in nanoseconds.
    pub closed spec fn period(&self) -> nat {
        self.period_ns as nat
    }

    /// Time elapsed since the last whole tick, in nanoseconds.
    pub closed spec fn pending(&self) -> nat {
        self.pending_ns as nat
    }

    /// The period is positive and the carried time is less than one period.
    pub open spec fn wf(&self) -> bool {
        0 < self.period() && self.pending() < self.period()
    }

    /// A clock that ticks every `period_ns` nanoseconds, with nothing carried.
    pub fn new(period_ns: u64) -> (r: Self)
        requires
            period_ns > 0,
        ensures
            r.wf(),
            r.period() == period_ns,
            r.pending() == 0,
    {
        TimerClock { period_ns, pending_ns: 0 }
    }

    /// Adds `elapsed_ns` nanoseconds and returns how many whole ticks are due;
    /// the time left over is carried.
    pub fn advance(&mut self, elapsed_ns: u64) -> (ticks: u64)
        requires
            old(self).wf(),
        ensures
            final(self).wf(),
            final(self).period() == old(self).period(),
            ticks * final(self).period() + final(self).pending() == old(self).pending()
                + elapsed_ns,
    {
        let period = self.period_ns as u128;
        let total: u128 = self.pending_ns as u128 + elapsed_ns as u128;
        let ticks = total / period;
        let rest = total % period;
        proof {
            assert(total == ticks * period + rest && rest < period) by (nonlinear_arith)
                requires
                    period > 0,
                    ticks == total / period,
                    rest == total % period,
            ;
            if period == 1 {
                assert(ticks == total) by (nonlinear_arith)
                    requires
                        period == 1,
                        ticks == total / period,
                ;
            } else {
                assert(ticks <= total / 2) by (nonlinear_arith)
                    requires
                        period >= 2,
                        ticks == total / period,
                        total >= 0,
                ;
            }
        }
        self.pending_ns = rest as u64;
        ticks as u64
    }
}

} // verus!
