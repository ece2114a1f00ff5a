//! The shape of a Monte Carlo run's failures: when paths ran dry, and
//! whether they did so early in retirement or late.
use vstd::prelude::*;

use crate::person::Person;
use crate::plan::{PeriodLength, Timeline};
use crate::year_month::YearMonth;

verus! {

/// Length of the "early retirement" window the diagnostics split on, in
/// years: the conventional first five years of sequence-of-returns risk.
pub const EARLY_RETIREMENT_WINDOW_YEARS: u32 = 5;

/// The early-retirement window in periods of `period`'s length.
pub fn early_window(period: PeriodLength) -> (r: usize)
    ensures
        r == 60int / period.spec_months(),
{
    (EARLY_RETIREMENT_WINDOW_YEARS as i64 * 12 / period.months()) as usize
}

/// Whether `m` is the earliest of everyone's retirements.
pub open spec fn is_first_retirement(people: Seq<Person>, m: YearMonth) -> bool {
    &&& exists|i: int| 0 <= i < people.len() && m == (#[trigger] people[i]).retirement
    &&& forall|i: int|
        0 <= i < people.len() ==> !crate::plan::lex_before((#[trigger] people[i]).retirement, m)
}

/// The first full period of the household's first retirement — the one that
/// puts the portfolio under load — if it falls inside the `n_periods` the
/// run covers.
pub fn retirement_period(t: &Timeline, n_periods: usize) -> (r: Option<usize>)
    requires
        forall|i: int|
            0 <= i < t.people@.len() ==> (#[trigger] t.people@[i]).retirement.year < i32::MAX
                && t.people@[i].retirement.year + 1 - t.sim_config.start.year <= i32::MAX,
    ensures
        t.people@.len() == 0 ==> r is None,
        t.people@.len() > 0 ==> exists|m: YearMonth|
            {
                &&& is_first_retirement(t.people@, m)
                &&& r == (if t.sim_config.spec_first_full_period_at_or_after(m) < n_periods {
                    Some(t.sim_config.spec_first_full_period_at_or_after(m) as usize)
                } else {
                    None
                })
            },
{
    if t.people.len() == 0 {
        return None;
    }
    let mut first = t.people[0].retirement;
    let mut i: usize = 1;
    while i < t.people.len()
        invariant
            1 <= i <= t.people@.len(),
            exists|k: int| 0 <= k < i && first == (#[trigger] t.people@[k]).retirement,
            forall|k: int|
                0 <= k < i ==> !crate::plan::lex_before((#[trigger] t.people@[k]).retirement, first),
        decreases t.people@.len() - i,
    {
        let candidate = t.people[i].retirement;
        if crate::plan::is_lex_before(candidate, first) {
            first = candidate;
        }
        i = i + 1;
    }
    assert(is_first_retirement(t.people@, first));
    let period = t.sim_config.first_full_period_at_or_after(first);
    if period < n_periods {
        Some(period)
    } else {
        None
    }
}

/// How many paths ran dry in period `period`.
pub open spec fn failures_at(depleted: Seq<Option<usize>>, period: int) -> nat
    decreases depleted.len(),
{
    if depleted.len() == 0 {
        0
    } else {
        failures_at(depleted.drop_last(), period) + if depleted.last() == Some(period as usize) {
            1nat
        } else {
            0nat
        }
    }
}

/// How many paths ran dry at all.
pub open spec fn failures(depleted: Seq<Option<usize>>) -> nat
    decreases depleted.len(),
{
    if depleted.len() == 0 {
        0
    } else {
        failures(depleted.drop_last()) + if depleted.last() is Some {
            1nat
        } else {
            0nat
        }
    }
}

/// How many paths ran dry before period `before`.
pub open spec fn failures_before(depleted: Seq<Option<usize>>, before: int) -> nat
    decreases depleted.len(),
{
    if depleted.len() == 0 {
        0
    } else {
        failures_before(depleted.drop_last(), before) + match depleted.last() {
            Some(p) => if p < before {
                1nat
            } else {
                0nat
            },
            None => 0nat,
        }
    }
}

/// The sum of a histogram's buckets.
pub open spec fn total(h: Seq<u32>) -> nat
    decreases h.len(),
{
    if h.len() == 0 {
        0
    } else {
        total(h.drop_last()) + h.last() as nat
    }
}

proof fn lemma_total_bump(h: Seq<u32>, p: int)
    requires
        0 <= p < h.len(),
        h[p] < u32::MAX,
    ensures
        total(h.update(p, (h[p] + 1) as u32)) == total(h) + 1,
    decreases h.len(),
{
    let g = h.update(p, (h[p] + 1) as u32);
    if p == h.len() - 1 {
        assert(g.drop_last() =~= h.drop_last());
    } else {
        lemma_total_bump(h.drop_last(), p);
        assert(g.drop_last() =~= h.drop_last().update(p, (h[p] + 1) as u32));
    }
}

proof fn lemma_total_zeros(h: Seq<u32>)
    requires
        forall|k: int| 0 <= k < h.len() ==> h[k] == 0,
    ensures
        total(h) == 0,
    decreases h.len(),
{
    if h.len() > 0 {
        lemma_total_zeros(h.drop_last());
    }
}

/// What the failed paths add up to.
pub struct FailureShape {
    /// Failed paths by the period they ran dry in, one bucket per period.
    pub depletion_histogram: Vec<u32>,
    /// Failures before the early window closed — including a path that ran
    /// dry before retirement at all.
    pub early_failures: u32,
    /// Failures after it.
    pub late_failures: u32,
}

/// Buckets each failed path by the period it ran dry in (`depleted[i]` is
/// path `i`'s, `None` for a path that never did), and splits the failures
/// at the close of the early-retirement window: `retirement_period +
/// window`. With no retirement inside the horizon, a failure counts as
/// neither early nor late.
pub fn failure_shape(
    depleted: &Vec<Option<usize>>,
    n_periods: usize,
    retirement_period: Option<usize>,
    window: usize,
) -> (r: FailureShape)
    requires
        depleted@.len() <= u32::MAX,
        forall|i: int|
            0 <= i < depleted@.len() ==> match #[trigger] depleted@[i] {
                Some(p) => p < n_periods,
                None => true,
            },
        match retirement_period {
            Some(rp) => rp + window <= usize::MAX,
            None => true,
        },
    ensures
        r.depletion_histogram@.len() == n_periods,
        forall|p: int|
            0 <= p < n_periods ==> r.depletion_histogram@[p] == failures_at(depleted@, p),
        total(r.depletion_histogram@) == failures(depleted@),
        match retirement_period {
            Some(rp) => {
                &&& r.early_failures == failures_before(depleted@, rp + window)
                &&& r.early_failures + r.late_failures == failures(depleted@)
            },
            None => r.early_failures == 0 && r.late_failures == 0,
        },
{
    let mut histogram: Vec<u32> = Vec::new();
    let mut p: usize = 0;
    while p < n_periods
        invariant
            p <= n_periods,
            histogram@.len() == p,
            forall|k: int| 0 <= k < p ==> histogram@[k] == 0,
        decreases n_periods - p,
    {
        histogram.push(0);
        p = p + 1;
    }
    proof {
        lemma_total_zeros(histogram@);
    }
    let mut early: u32 = 0;
    let mut late: u32 = 0;
    let mut i: usize = 0;
    while i < depleted.len()
        invariant
            i <= depleted@.len(),
            depleted@.len() <= u32::MAX,
            forall|j: int|
                0 <= j < depleted@.len() ==> match #[trigger] depleted@[j] {
                    Some(p) => p < n_periods,
                    None => true,
                },
            match retirement_period {
                Some(rp) => rp + window <= usize::MAX,
                None => true,
            },
            histogram@.len() == n_periods,
            forall|k: int|
                0 <= k < n_periods ==> histogram@[k] == failures_at(depleted@.take(i as int), k),
            total(histogram@) == failures(depleted@.take(i as int)),
            failures(depleted@.take(i as int)) <= i,
            match retirement_period {
                Some(rp) => {
                    &&& early == failures_before(depleted@.take(i as int), rp + window)
                    &&& early + late == failures(depleted@.take(i as int))
                },
                None => early == 0 && late == 0,
            },
        decreases depleted@.len() - i,
    {
        let ghost before = depleted@.take(i as int);
        let ghost after = depleted@.take(i + 1);
        proof {
            assert(after.drop_last() =~= before);
            assert(after.last() == depleted@[i as int]);
        }
        match depleted[i] {
            Some(period) => {
                proof {
                    assert(histogram@[period as int] == failures_at(before, period as int));
                    lemma_failures_at_bounded(before, period as int);
                    lemma_total_bump(histogram@, period as int);
                }
                let bumped = histogram[period] + 1;
                histogram.set(period, bumped);
                match retirement_period {
                    Some(rp) => {
                        if period < rp + window {
                            early = early + 1;
                        } else {
                            late = late + 1;
                        }
                    },
                    None => {},
                }
            },
            None => {},
        }
        i = i + 1;
    }
    proof {
        assert(depleted@.take(depleted@.len() as int) =~= depleted@);
    }
    FailureShape { depletion_histogram: histogram, early_failures: early, late_failures: late }
}

proof fn lemma_failures_at_bounded(s: Seq<Option<usize>>, p: int)
    ensures
        failures_at(s, p) <= failures(s),
        failures(s) <= s.len(),
    decreases s.len(),
{
    if s.len() > 0 {
        lemma_failures_at_bounded(s.drop_last(), p);
    }
}

/// Paths that never ran dry, out of all of them.
pub fn count_succeeded(depleted: &Vec<Option<usize>>) -> (r: usize)
    ensures
        r + failures(depleted@) == depleted@.len(),
{
    let mut n: usize = 0;
    let mut i: usize = 0;
    while i < depleted.len()
        invariant
            i <= depleted@.len(),
            n <= i,
            n + failures(depleted@.take(i as int)) == i,
        decreases depleted@.len() - i,
    {
        proof {
            assert(depleted@.take(i + 1).drop_last() =~= depleted@.take(i as int));
        }
        if depleted[i].is_none() {
            n = n + 1;
        }
        i = i + 1;
    }
    proof {
        assert(depleted@.take(depleted@.len() as int) =~= depleted@);
    }
    n
}

} // verus!
