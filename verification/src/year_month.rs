//! The calendar month, the engine's native unit of time.
use vstd::prelude::*;

use crate::text::{padded, push_padded, push_str};

verus! {

/// A calendar month. Every plan date (a birth, a retirement, a stream
/// boundary) is one of these.
///
/// The derived order compares `year` and then `month`, which is calendar
/// order for any month in `1..=12`; verified code compares months through
/// [`YearMonth::index`] instead (see `lemma_order_is_index_order`).
#[derive(Clone, Copy, Debug, PartialEq, Eq, Structural, PartialOrd, Ord, Hash)]
pub struct YearMonth {
    pub year: i32,
    /// 1-based month (1 = January, 12 = December).
    pub month: u8,
}

/// Months in a year.
pub const MONTHS_PER_YEAR: i64 = 12;

impl YearMonth {
    /// A well-formed month: January through December.
    pub open spec fn valid(self) -> bool {
        1 <= self.month <= 12
    }

    /// Months since January of year 0.
    pub open spec fn index(self) -> int {
        self.year * 12 + self.month - 1
    }

    /// The month `index` months after January of year 0 (Euclidean, so a
    /// negative index lands in a negative year), with the year truncated to
    /// 32 bits the way the executable conversion does.
    pub open spec fn from_index(index: int) -> YearMonth {
        YearMonth { year: (index / 12) as i32, month: (index % 12 + 1) as u8 }
    }

    /// Whether `index` names a month whose year fits in an `i32`.
    pub open spec fn index_in_range(index: int) -> bool {
        i32::MIN <= index / 12 <= i32::MAX
    }

    /// `self` strictly before `other` on the calendar.
    pub open spec fn before(self, other: YearMonth) -> bool {
        self.index() < other.index()
    }

    /// The later of two months.
    pub open spec fn later(a: YearMonth, b: YearMonth) -> YearMonth {
        if a.index() < b.index() { b } else { a }
    }

    /// The earlier of two months.
    pub open spec fn earlier(a: YearMonth, b: YearMonth) -> YearMonth {
        if b.index() < a.index() { b } else { a }
    }

    /// The month `months` after `self`.
    pub open spec fn plus_months(self, months: int) -> YearMonth {
        YearMonth::from_index(self.index() + months)
    }

    /// A month; the month must be in `1..=12`.
    pub fn new(year: i32, month: u8) -> (r: YearMonth)
        requires
            1 <= month <= 12,
        ensures
            r == (YearMonth { year, month }),
    {
        YearMonth { year, month }
    }

    /// The checked form of [`YearMonth::new`]: `None` for a month outside
    /// `1..=12`.
    pub fn try_new(year: i32, month: u8) -> (r: Option<YearMonth>)
        ensures
            r == (if 1 <= month <= 12 { Some(YearMonth { year, month }) } else { None }),
    {
        if 1 <= month && month <= 12 {
            Some(YearMonth { year, month })
        } else {
            None
        }
    }

    /// Total months since year 0, for ordering and duration arithmetic.
    pub fn month_index(self) -> (r: i64)
        ensures
            r == self.index(),
    {
        self.year as i64 * 12 + (self.month as i64 - 1)
    }

    /// The month at `index` months since January of year 0.
    pub fn from_month_index(index: i64) -> (r: YearMonth)
        ensures
            r == YearMonth::from_index(index as int),
            r.valid(),
            YearMonth::index_in_range(index as int) ==> r.index() == index,
    {
        let q: i64 = index / 12;
        let m: i64 = index % 12;
        let (year, month): (i64, i64) = if m < 0 { (q - 1, m + 12) } else { (q, m) };
        assert(year == index as int / 12 && month == index as int % 12);
        YearMonth { year: year as i32, month: (month + 1) as u8 }
    }

    /// The month `months` after `self` (before it, for a negative count).
    pub fn add_months(self, months: i64) -> (r: YearMonth)
        requires
            i64::MIN <= self.index() + months <= i64::MAX,
        ensures
            r == self.plus_months(months as int),
            r.valid(),
            YearMonth::index_in_range(self.index() + months) ==> r.index() == self.index() + months,
    {
        YearMonth::from_month_index(self.month_index() + months)
    }

    /// The same month `years` years on.
    pub fn add_years(self, years: i32) -> (r: YearMonth)
        ensures
            r == self.plus_months(years * 12),
            r.valid(),
            self.valid() ==> r.month == self.month,
            self.valid() && YearMonth::index_in_range(self.index() + years * 12) ==> r.year == self.year
                + years,
    {
        let r = self.add_months(years as i64 * 12);
        proof {
            if self.valid() && YearMonth::index_in_range(self.index() + years * 12) {
                lemma_plus_whole_years(self, years as int);
            }
            if self.valid() {
                lemma_plus_whole_years_month(self, years as int);
            }
        }
        r
    }

    /// Whole months from `self` to `other`: negative when `other` is earlier.
    pub fn months_until(self, other: YearMonth) -> (r: i64)
        ensures
            r == other.index() - self.index(),
    {
        other.month_index() - self.month_index()
    }

    /// `self` strictly before `other` on the calendar.
    pub fn is_before(self, other: YearMonth) -> (r: bool)
        ensures
            r == self.before(other),
    {
        self.month_index() < other.month_index()
    }

    /// The later of two months.
    pub fn max(self, other: YearMonth) -> (r: YearMonth)
        ensures
            r == YearMonth::later(self, other),
    {
        if self.month_index() < other.month_index() {
            other
        } else {
            self
        }
    }

    /// The earlier of two months.
    pub fn min(self, other: YearMonth) -> (r: YearMonth)
        ensures
            r == YearMonth::earlier(self, other),
    {
        if other.month_index() < self.month_index() {
            other
        } else {
            self
        }
    }
}

impl YearMonth {
    /// The month as text, `YYYY-MM`: the year zero-filled to four places
    /// and the month to two.
    pub open spec fn spec_text(self) -> Seq<char> {
        padded(self.year as int, 4) + seq!['-'] + padded(self.month as int, 2)
    }

    /// The month as text, `YYYY-MM` (`2038-08`).
    pub fn to_text(self) -> (r: String)
        ensures
            r@ == self.spec_text(),
    {
        let mut r = String::new();
        push_padded(&mut r, self.year as i64, 4);
        proof {
            reveal_strlit("-");
        }
        push_str(&mut r, "-");
        push_padded(&mut r, self.month as i64, 2);
        proof {
            assert(r@ =~= self.spec_text());
        }
        r
    }
}

pub(crate) proof fn lemma_plus_whole_years(ym: YearMonth, years: int)
    requires
        ym.valid(),
        YearMonth::index_in_range(ym.index() + years * 12),
    ensures
        ym.plus_months(years * 12).year == ym.year + years,
{
    let i = ym.index() + years * 12;
    assert(i == (ym.year + years) * 12 + (ym.month - 1)) by (nonlinear_arith)
        requires
            i == ym.year * 12 + ym.month - 1 + years * 12,
    ;
    vstd::arithmetic::div_mod::lemma_fundamental_div_mod_converse(
        i,
        12,
        ym.year + years,
        ym.month - 1,
    );
}

pub(crate) proof fn lemma_plus_whole_years_month(ym: YearMonth, years: int)
    requires
        ym.valid(),
    ensures
        ym.plus_months(years * 12).month == ym.month,
{
    let i = ym.index() + years * 12;
    assert(i == (ym.year + years) * 12 + (ym.month - 1)) by (nonlinear_arith)
        requires
            i == ym.year * 12 + ym.month - 1 + years * 12,
    ;
    vstd::arithmetic::div_mod::lemma_fundamental_div_mod_converse(
        i,
        12,
        ym.year + years,
        ym.month - 1,
    );
}

/// A well-formed month survives the trip through its index:
/// `from_month_index(month_index(m)) == m`.
pub proof fn lemma_index_round_trip(ym: YearMonth)
    requires
        ym.valid(),
    ensures
        YearMonth::from_index(ym.index()) == ym,
{
    vstd::arithmetic::div_mod::lemma_fundamental_div_mod_converse(
        ym.index(),
        12,
        ym.year as int,
        ym.month - 1,
    );
}

/// An index whose year fits survives the trip through its month:
/// `month_index(from_month_index(i)) == i`.
pub proof fn lemma_month_round_trip(index: int)
    requires
        YearMonth::index_in_range(index),
    ensures
        YearMonth::from_index(index).index() == index,
        YearMonth::from_index(index).valid(),
{
}

/// Adding months composes: `m + a + b` is `m + (a + b)`, for well-formed
/// months whose years stay in range.
pub proof fn lemma_add_months_composes(ym: YearMonth, a: int, b: int)
    requires
        ym.valid(),
        YearMonth::index_in_range(ym.index() + a),
    ensures
        ym.plus_months(a).plus_months(b) == ym.plus_months(a + b),
{
}

/// Counting the months to a month `n` months on gives back `n`.
pub proof fn lemma_months_until_added(ym: YearMonth, n: int)
    requires
        YearMonth::index_in_range(ym.index() + n),
    ensures
        ym.plus_months(n).index() - ym.index() == n,
{
}

/// `months_until` is signed: swapping the two months negates it.
pub proof fn lemma_months_until_is_signed(a: YearMonth, b: YearMonth)
    ensures
        b.index() - a.index() == -(a.index() - b.index()),
{
}

/// The calendar order the derived `<` uses — year first, then month — is
/// the order of the month indices, for well-formed months.
pub proof fn lemma_order_is_index_order(a: YearMonth, b: YearMonth)
    requires
        a.valid(),
        b.valid(),
    ensures
        (a.year < b.year || (a.year == b.year && a.month < b.month)) <==> a.before(b),
        (a == b) <==> a.index() == b.index(),
{
    if a.year < b.year {
        assert(a.year * 12 + 12 <= b.year * 12) by (nonlinear_arith)
            requires
                a.year < b.year,
        ;
    } else if a.year > b.year {
        assert(b.year * 12 + 12 <= a.year * 12) by (nonlinear_arith)
            requires
                b.year < a.year,
        ;
    }
}

} // verus!
