//! Statutory figures with no annual publication: the age required minimum
//! distributions begin at, and the IRS Uniform Lifetime Table.
use vstd::prelude::*;

verus! {

/// The age required minimum distributions begin at for someone born in
/// `birth_year` (SECURE 2.0): 73 for 1951 through 1959, 75 from 1960. Anyone
/// born earlier reached their required beginning date under older rules and
/// is already past it, which 72 answers for them.
pub open spec fn spec_rmd_age(birth_year: int) -> int {
    if birth_year <= 1950 {
        72
    } else if birth_year <= 1959 {
        73
    } else {
        75
    }
}

/// Age at which required minimum distributions begin. Not indexed.
pub fn rmd_age(birth_year: i32) -> (r: i32)
    ensures
        r == spec_rmd_age(birth_year as int),
{
    if birth_year <= 1950 {
        72
    } else if birth_year <= 1959 {
        73
    } else {
        75
    }
}

/// First age in the Uniform Lifetime Table.
pub const UNIFORM_LIFETIME_FIRST_AGE: i32 = 72;

/// IRS Uniform Lifetime Table, Treas. Reg. 1.401(a)(9)-9(c), as reissued
/// effective 2022: the divisors for ages 72 through 120, in tenths (274 is
/// a divisor of 27.4). The last row is the table's "120 and older".
pub open spec fn uniform_lifetime_tenths() -> Seq<u16> {
    seq![
        274u16, 265, 255, 246, 237, 229, 220, 211, 202, 194,
        185, 177, 168, 160, 152, 144, 137, 129, 122, 115,
        108, 101, 95, 89, 84, 78, 73, 68, 64, 60,
        56, 52, 49, 46, 43, 41, 39, 37, 35, 34,
        33, 31, 30, 29, 28, 27, 25, 23, 20,
    ]
}

/// The Uniform Lifetime divisor, in tenths, for someone attaining `age`
/// during the distribution year. `None` below the table's first age; ages
/// past its last row take the "120 and older" divisor.
pub fn uniform_lifetime_divisor_tenths(age: i32) -> (r: Option<u16>)
    ensures
        age < UNIFORM_LIFETIME_FIRST_AGE ==> r is None,
        UNIFORM_LIFETIME_FIRST_AGE <= age ==> r == Some(
            uniform_lifetime_tenths()[if age - UNIFORM_LIFETIME_FIRST_AGE < 48 {
                age - UNIFORM_LIFETIME_FIRST_AGE
            } else {
                48
            }],
        ),
{
    if age < UNIFORM_LIFETIME_FIRST_AGE {
        return None;
    }
    let table: [u16; 49] = [
        274, 265, 255, 246, 237, 229, 220, 211, 202, 194,
        185, 177, 168, 160, 152, 144, 137, 129, 122, 115,
        108, 101, 95, 89, 84, 78, 73, 68, 64, 60,
        56, 52, 49, 46, 43, 41, 39, 37, 35, 34,
        33, 31, 30, 29, 28, 27, 25, 23, 20,
    ];
    assert(table@ =~= uniform_lifetime_tenths());
    let offset: i32 = age - UNIFORM_LIFETIME_FIRST_AGE;
    let idx: usize = if offset < 48 {
        offset as usize
    } else {
        48
    };
    Some(table[idx])
}

/// The Uniform Lifetime divisor, in tenths, that applies in `year` to
/// someone born in `birth_year`: none before the year they reach their
/// required beginning age (the age attained during the year), and none
/// below the table's first age.
pub fn required_divisor_tenths(birth_year: i32, year: i32) -> (r: Option<u16>)
    requires
        i32::MIN <= year - birth_year <= i32::MAX,
    ensures
        year - birth_year < spec_rmd_age(birth_year as int) ==> r is None,
        year - birth_year >= spec_rmd_age(birth_year as int) ==> r == (if year - birth_year
            < UNIFORM_LIFETIME_FIRST_AGE {
            None
        } else {
            Some(
                uniform_lifetime_tenths()[if year - birth_year - UNIFORM_LIFETIME_FIRST_AGE < 48 {
                    year - birth_year - UNIFORM_LIFETIME_FIRST_AGE
                } else {
                    48
                }],
            )
        }),
{
    let age: i32 = year - birth_year;
    if age < rmd_age(birth_year) {
        return None;
    }
    uniform_lifetime_divisor_tenths(age)
}

/// A later birth never distributes earlier: the required beginning age
/// never falls as the birth year rises, and it is always 72, 73 or 75.
pub proof fn lemma_rmd_age_is_monotone(a: int, b: int)
    requires
        a <= b,
    ensures
        spec_rmd_age(a) <= spec_rmd_age(b),
        72 <= spec_rmd_age(a) <= 75,
{
}

/// Each year older never raises the divisor: the table falls with age, so
/// the required share of the balance only grows.
pub proof fn lemma_uniform_lifetime_table_falls(i: int, j: int)
    requires
        0 <= i <= j < 49,
    ensures
        uniform_lifetime_tenths()[j] <= uniform_lifetime_tenths()[i],
{
    let t = uniform_lifetime_tenths();
    assert(forall|k: int| 0 <= k < 48 ==> t[k + 1] <= #[trigger] t[k]);
    assert forall|k: int| i <= k <= j implies t[k] <= t[i] by {
        lemma_table_step_chain(i, k);
    }
}

proof fn lemma_table_step_chain(i: int, k: int)
    requires
        0 <= i <= k < 49,
        forall|m: int| 0 <= m < 48 ==> uniform_lifetime_tenths()[m + 1] <= #[trigger] uniform_lifetime_tenths()[m],
    ensures
        uniform_lifetime_tenths()[k] <= uniform_lifetime_tenths()[i],
    decreases k - i,
{
    if k > i {
        lemma_table_step_chain(i, k - 1);
    }
}

} // verus!
