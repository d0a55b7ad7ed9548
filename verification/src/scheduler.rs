//! The scan scheduler: a repeating timer that decides, from elapsed-time
//! deltas, when a full sweep is due.
//!
//! A monotone accumulator grows by `dt` each tick; when it reaches the period
//! the timer fires and the accumulator wraps modulo the period, so no elapsed
//! time is ever lost. Changing the period keeps the accumulated time as it
//! is, taking effect on the next tick. Deltas are unsigned microseconds, so a
//! negative delta cannot even be expressed, let alone mishandled.

use crate::fixed::{PERIOD_SCALE, TICK_LIMIT};
use vstd::arithmetic::div_mod::{
    lemma_basic_div, lemma_div_by_self, lemma_div_is_ordered, lemma_fundamental_div_mod,
    lemma_hoist_over_denominator, lemma_mod_bound, lemma_small_mod,
};
use vstd::prelude::*;

verus! {

/// A repeating timer gating sweep execution, in microseconds.
#[derive(Clone, Copy, Debug, PartialEq, Eq, Structural)]
pub struct ScanScheduler {
    /// Time between firings, in microseconds.
    pub period_us: u64,
    /// Time accumulated since the last firing, in microseconds.
    pub acc_us: u64,
}

/// The accumulator after one tick of `dt`: accumulated time wraps modulo the
/// period when the timer fires.
pub open spec fn spec_tick_acc(acc: int, period: int, dt: int) -> int {
    (acc + dt) % period
}

/// How many whole periods elapse during one tick of `dt`.
pub open spec fn spec_tick_count(acc: int, period: int, dt: int) -> int {
    (acc + dt) / period
}

/// The sum of a sequence of time deltas.
pub open spec fn spec_sum(dts: Seq<int>) -> int
    decreases dts.len(),
{
    if dts.len() == 0 {
        0
    } else {
        dts[0] + spec_sum(dts.subrange(1, dts.len() as int))
    }
}

/// The total number of firings over a run of ticks starting from `acc`.
pub open spec fn spec_total_fires(acc: int, period: int, dts: Seq<int>) -> int
    decreases dts.len(),
{
    if dts.len() == 0 {
        0
    } else {
        spec_tick_count(acc, period, dts[0]) + spec_total_fires(
            spec_tick_acc(acc, period, dts[0]),
            period,
            dts.subrange(1, dts.len() as int),
        )
    }
}

/// However the elapsed time is divided into ticks, the scheduler fires once
/// per full period of accumulated time: the total number of firings over any
/// run equals the accumulated time divided by the period.
pub proof fn lemma_fires_follow_accumulated_time(acc: int, period: int, dts: Seq<int>)
    requires
        period >= 1,
        0 <= acc < period,
        forall|i: int| 0 <= i < dts.len() ==> dts[i] >= 0,
    ensures
        spec_total_fires(acc, period, dts) == (acc + spec_sum(dts)) / period,
    decreases dts.len(),
{
    if dts.len() == 0 {
        lemma_basic_div(acc, period);
    } else {
        let d0 = dts[0];
        let rest = dts.subrange(1, dts.len() as int);
        let c0 = spec_tick_count(acc, period, d0);
        let acc1 = spec_tick_acc(acc, period, d0);
        lemma_mod_bound(acc + d0, period);
        lemma_fires_follow_accumulated_time(acc1, period, rest);
        lemma_fundamental_div_mod(acc + d0, period);
        lemma_hoist_over_denominator(acc1 + spec_sum(rest), c0, period as nat);
        assert(acc1 + spec_sum(rest) + c0 * period == acc + spec_sum(dts)) by {
            assert(period * c0 == c0 * period) by (nonlinear_arith);
        }
    }
}

impl ScanScheduler {
    /// The scheduler is representable: the period is positive and at most one
    /// second times the rate scale, and the accumulator is in normal range.
    pub open spec fn wf(self) -> bool {
        &&& 1 <= self.period_us <= PERIOD_SCALE
        &&& self.acc_us <= PERIOD_SCALE
    }

    /// A fresh scheduler with nothing accumulated.
    pub fn new(period_us: u64) -> (r: ScanScheduler)
        requires
            1 <= period_us <= PERIOD_SCALE,
        ensures
            r == (ScanScheduler { period_us, acc_us: 0u64 }),
            r.wf(),
    {
        ScanScheduler { period_us, acc_us: 0 }
    }

    /// Advances the timer by `dt_us` and reports whether a sweep is due.
    /// Firing wraps the accumulator modulo the period, so time in excess of
    /// the period carries into the next cycle.
    pub fn tick(&mut self, dt_us: u64) -> (fired: bool)
        requires
            old(self).wf(),
            dt_us <= TICK_LIMIT,
        ensures
            final(self).wf(),
            final(self).period_us == old(self).period_us,
            fired <==> old(self).acc_us + dt_us >= old(self).period_us,
            fired <==> spec_tick_count(old(self).acc_us as int, old(self).period_us as int, dt_us as int) >= 1,
            final(self).acc_us == spec_tick_acc(
                old(self).acc_us as int,
                old(self).period_us as int,
                dt_us as int,
            ),
    {
        let total: u64 = self.acc_us + dt_us;
        if total >= self.period_us {
            self.acc_us = total % self.period_us;
            proof {
                lemma_mod_bound(total as int, self.period_us as int);
                lemma_div_is_ordered(self.period_us as int, total as int, self.period_us as int);
                lemma_div_by_self(self.period_us as int);
            }
            true
        } else {
            self.acc_us = total;
            proof {
                lemma_small_mod(total as nat, self.period_us as nat);
                lemma_basic_div(total as int, self.period_us as int);
            }
            false
        }
    }

    /// Changes the period. Any partially accumulated time carries over
    /// unchanged and counts toward the next firing.
    pub fn set_period(&mut self, period_us: u64)
        requires
            old(self).wf(),
            1 <= period_us <= PERIOD_SCALE,
        ensures
            final(self).period_us == period_us,
            final(self).acc_us == old(self).acc_us,
            final(self).wf(),
    {
        self.period_us = period_us;
    }
}

} // verus!
