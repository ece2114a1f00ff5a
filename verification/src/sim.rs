//! The simulation's period grid: one period per calendar year the horizon
//! touches, the first truncated at the plan start.
use vstd::prelude::*;

use crate::plan::{lex_before, SimConfig};
use crate::year_month::YearMonth;

verus! {

/// January of `year`.
pub open spec fn january(year: int) -> YearMonth {
    YearMonth { year: year as i32, month: 1 }
}

/// The `[start, end)` months of period `period` on the calendar-year grid
/// of a plan starting at `start`.
pub open spec fn spec_calendar_period(start: YearMonth, period: int) -> (YearMonth, YearMonth) {
    (
        if period == 0 {
            start
        } else {
            january(start.year + period)
        },
        january(start.year + period + 1),
    )
}

/// How many periods the horizon `[start, end)` covers.
pub open spec fn spec_period_count(start: YearMonth, end: YearMonth) -> int {
    if !lex_before(start, end) {
        0
    } else {
        end.plus_months(-1).year - start.year + 1
    }
}

/// How many periods the horizon `[start, end)` covers: one per calendar
/// year it touches. `end` is exclusive, so a plan ending in January of a
/// year opens no period for that year.
pub fn period_count(start: YearMonth, end: YearMonth) -> (r: usize)
    requires
        lex_before(start, end) ==> 0 <= spec_period_count(start, end) <= i32::MAX,
    ensures
        r == spec_period_count(start, end),
{
    if !crate::plan::is_lex_before(start, end) {
        return 0;
    }
    let last = end.add_months(-1);
    (last.year - start.year + 1) as usize
}

/// The `[start, end)` months of period `period`: the plan start through the
/// following January for period 0, and whole calendar years after that.
pub fn calendar_period(start: YearMonth, period: usize) -> (r: (YearMonth, YearMonth))
    requires
        period <= i32::MAX,
        start.year + period + 1 <= i32::MAX,
    ensures
        r == spec_calendar_period(start, period as int),
{
    let year: i32 = start.year + period as i32;
    let first = if period == 0 {
        start
    } else {
        YearMonth::new(year, 1)
    };
    (first, YearMonth::new(year + 1, 1))
}

/// Months of `[period_start, period_end)` that fall inside the active
/// window `[window_start, window_end)`; never negative.
pub open spec fn spec_overlap_months(
    period_start: YearMonth,
    period_end: YearMonth,
    window_start: YearMonth,
    window_end: YearMonth,
) -> int {
    let from = YearMonth::later(period_start, window_start);
    let to = YearMonth::earlier(period_end, window_end);
    if from.index() < to.index() {
        to.index() - from.index()
    } else {
        0
    }
}

/// Months of a period that a window overlaps: what a stream, a contribution
/// or a person's working life is prorated by.
pub fn overlap_months(
    period_start: YearMonth,
    period_end: YearMonth,
    window_start: YearMonth,
    window_end: YearMonth,
) -> (r: i64)
    ensures
        r == spec_overlap_months(period_start, period_end, window_start, window_end),
        0 <= r,
        r <= period_end.index() - period_start.index() || r == 0,
{
    let from = period_start.max(window_start);
    let to = period_end.min(window_end);
    let months = from.months_until(to);
    if months > 0 {
        months
    } else {
        0
    }
}

/// The grid tiles time: period 0 begins at the plan start, every period
/// ends where the next begins, and every period after the first is a whole
/// calendar year.
pub proof fn lemma_periods_tile(start: YearMonth, period: int)
    requires
        start.valid(),
        0 <= period,
        start.year + period + 2 <= i32::MAX,
    ensures
        spec_calendar_period(start, 0).0 == start,
        spec_calendar_period(start, period).1 == spec_calendar_period(start, period + 1).0,
        spec_calendar_period(start, period + 1).1.index() - spec_calendar_period(
            start,
            period + 1,
        ).0.index() == 12,
        0 < spec_calendar_period(start, period).1.index() - spec_calendar_period(
            start,
            period,
        ).0.index() <= 12,
{
}

/// The last period holds the last simulated month: with `n` periods,
/// the month before `end` falls in period `n - 1`.
pub proof fn lemma_last_period_holds_the_end(start: YearMonth, end: YearMonth)
    requires
        start.valid(),
        end.valid(),
        lex_before(start, end),
        end.year < i32::MAX,
    ensures
        spec_period_count(start, end) >= 1,
        spec_calendar_period(start, spec_period_count(start, end) - 1).0.index()
            <= end.index() - 1,
        end.index() - 1 < spec_calendar_period(start, spec_period_count(start, end) - 1).1.index(),
{
    let last = end.plus_months(-1);
    assert(last.index() == end.index() - 1);
    assert(last.year >= start.year);
}

/// The strict period helper names the period after the one `month` falls
/// in: that period begins after `month`, and the one before it contains
/// `month`.
pub proof fn lemma_first_period_after_is_strict(config: SimConfig, month: YearMonth)
    requires
        config.start.valid(),
        month.valid(),
        !lex_before(month, config.start),
        month.year + 2 <= i32::MAX,
    ensures
        config.spec_first_period_after(month) >= 1,
        month.before(
            spec_calendar_period(config.start, config.spec_first_period_after(month)).0,
        ),
        spec_calendar_period(config.start, config.spec_first_period_after(month) - 1).0.index()
            <= month.index(),
{
}

} // verus!
