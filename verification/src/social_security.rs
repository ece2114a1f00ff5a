//! Social Security's full retirement age and the early/delayed claiming
//! adjustment relative to it.
use vstd::prelude::*;

verus! {

/// Full retirement age as SSA publishes it: years and months. The months
/// are not always zero: births in 1938–1942 and 1955–1959 reach it
/// mid-year.
#[derive(Clone, Copy, Debug, PartialEq, Eq, Structural)]
pub struct FullRetirementAge {
    pub years: u8,
    /// Months past `years`, 0..=11.
    pub months: u8,
}

/// SSA's published table (Social Security Act §216(l), as amended in 1983),
/// in total months.
pub open spec fn fra_months_for_birth_year(birth_year: int) -> int {
    if birth_year <= 1937 {
        780
    } else if birth_year <= 1942 {
        780 + 2 * (birth_year - 1937)
    } else if birth_year <= 1954 {
        792
    } else if birth_year <= 1959 {
        792 + 2 * (birth_year - 1954)
    } else {
        804
    }
}

impl FullRetirementAge {
    pub open spec fn spec_total_months(self) -> int {
        self.years * 12 + self.months
    }

    pub fn new(years: u8, months: u8) -> (r: FullRetirementAge)
        ensures
            r == (FullRetirementAge { years, months }),
    {
        FullRetirementAge { years, months }
    }

    /// The age in months.
    pub fn total_months(self) -> (r: i32)
        ensures
            r == self.spec_total_months(),
    {
        self.years as i32 * 12 + self.months as i32
    }

    /// SSA's full retirement age for someone born in `birth_year`: 65 up to
    /// 1937, rising two months a year to 66 for 1943–1954, rising two months
    /// a year again, and 67 from 1960.
    pub fn for_birth_year(birth_year: i32) -> (r: FullRetirementAge)
        ensures
            r.months < 12,
            r.spec_total_months() == fra_months_for_birth_year(birth_year as int),
    {
        if birth_year <= 1937 {
            FullRetirementAge::new(65, 0)
        } else if birth_year == 1938 {
            FullRetirementAge::new(65, 2)
        } else if birth_year == 1939 {
            FullRetirementAge::new(65, 4)
        } else if birth_year == 1940 {
            FullRetirementAge::new(65, 6)
        } else if birth_year == 1941 {
            FullRetirementAge::new(65, 8)
        } else if birth_year == 1942 {
            FullRetirementAge::new(65, 10)
        } else if birth_year <= 1954 {
            FullRetirementAge::new(66, 0)
        } else if birth_year == 1955 {
            FullRetirementAge::new(66, 2)
        } else if birth_year == 1956 {
            FullRetirementAge::new(66, 4)
        } else if birth_year == 1957 {
            FullRetirementAge::new(66, 6)
        } else if birth_year == 1958 {
            FullRetirementAge::new(66, 8)
        } else if birth_year == 1959 {
            FullRetirementAge::new(66, 10)
        } else {
            FullRetirementAge::new(67, 0)
        }
    }

    /// The age a benefit is claimed against: the override if one was given,
    /// else SSA's age for the owner's birth year.
    pub fn resolve(overridden: Option<FullRetirementAge>, birth_year: i32) -> (r:
        FullRetirementAge)
        ensures
            match overridden {
                Some(fra) => r == fra,
                None => r.months < 12 && r.spec_total_months() == fra_months_for_birth_year(
                    birth_year as int,
                ),
            },
    {
        match overridden {
            Some(fra) => fra,
            None => FullRetirementAge::for_birth_year(birth_year),
        }
    }
}

/// The unit the claiming adjustment is counted in: 1/3600 of the benefit at
/// full retirement age, the least unit in which every rate SSA applies is a
/// whole number (2/3 of 1% is 24, 5/9 of 1% is 20, 5/12 of 1% is 15).
pub const ADJUSTMENT_UNITS: i64 = 3600;

/// SSA's graduated adjustment for claiming at `claiming_age` against a full
/// retirement age of `fra_months`, in 3600ths of the unadjusted benefit:
/// +2/3 of 1% per month delayed, −5/9 of 1% per month for the first 36
/// months early, and −5/12 of 1% per month for each month beyond those.
pub open spec fn spec_adjustment_units(fra_months: int, claiming_age: int) -> int {
    let months = 12 * claiming_age - fra_months;
    if months >= 0 {
        3600 + 24 * months
    } else if -months <= 36 {
        3600 - 20 * (-months)
    } else {
        3600 - 20 * 36 - 15 * (-months - 36)
    }
}

/// The claiming adjustment in 3600ths of the benefit at full retirement age
/// (3600 is unadjusted; 2520 is the 0.70 of a claim five years early).
pub fn adjustment_units(full_retirement_age_months: i32, claiming_age: u8) -> (r: i64)
    ensures
        r == spec_adjustment_units(full_retirement_age_months as int, claiming_age as int),
{
    let months: i64 = 12 * claiming_age as i64 - full_retirement_age_months as i64;
    if months >= 0 {
        ADJUSTMENT_UNITS + 24 * months
    } else {
        let months_early: i64 = -months;
        let first_36: i64 = if months_early < 36 {
            months_early
        } else {
            36
        };
        let extra: i64 = months_early - first_36;
        ADJUSTMENT_UNITS - (20 * first_36 + 15 * extra)
    }
}

/// Claiming exactly at full retirement age is unadjusted.
pub proof fn lemma_claiming_at_fra_is_unadjusted(years: int)
    ensures
        spec_adjustment_units(12 * years, years) == ADJUSTMENT_UNITS,
{
}

/// Claiming later never pays less: the adjustment rises with the claiming
/// age, strictly.
pub proof fn lemma_adjustment_rises_with_claiming_age(fra_months: int, a: int, b: int)
    requires
        a < b,
    ensures
        spec_adjustment_units(fra_months, a) < spec_adjustment_units(fra_months, b),
{
}

/// A table age is always between 65 and 67, and a later birth never has an
/// earlier full retirement age.
pub proof fn lemma_fra_table_is_monotone(a: int, b: int)
    requires
        a <= b,
    ensures
        65 * 12 <= fra_months_for_birth_year(a) <= 67 * 12,
        fra_months_for_birth_year(a) <= fra_months_for_birth_year(b),
{
}

/// Each month between the claim and full retirement age moves the benefit
/// by SSA's monthly rate: with a full retirement age one month later (and
/// the claiming age unchanged), a delayed claim loses one month of 2/3 of
/// 1% (24 units), a claim up to 36 months early loses 5/9 of 1% (20 units),
/// and one further out loses 5/12 of 1% (15 units). With claiming at full
/// retirement age being unadjusted, this fixes every adjustment.
pub proof fn lemma_each_month_moves_the_adjustment(fra_months: int, claiming_age: int)
    ensures
        ({
            let early = fra_months + 1 - 12 * claiming_age;
            let step = spec_adjustment_units(fra_months, claiming_age) - spec_adjustment_units(
                fra_months + 1,
                claiming_age,
            );
            &&& early <= 0 ==> step == 24
            &&& 0 < early <= 36 ==> step == 20
            &&& early > 36 ==> step == 15
        }),
        spec_adjustment_units(12 * claiming_age, claiming_age) == 3600,
{
}

/// A delayed claim earns exactly 2/3 of 1% (24 units) for each month past
/// full retirement age, whole years or not.
pub proof fn lemma_delay_credit_is_monthly(fra_months: int, claiming_age: int)
    requires
        12 * claiming_age >= fra_months,
    ensures
        spec_adjustment_units(fra_months, claiming_age) == 3600 + 24 * (12 * claiming_age
            - fra_months),
    decreases 12 * claiming_age - fra_months,
{
    if 12 * claiming_age > fra_months {
        lemma_delay_credit_is_monthly(fra_months + 1, claiming_age);
        lemma_each_month_moves_the_adjustment(fra_months, claiming_age);
    } else {
        lemma_each_month_moves_the_adjustment(fra_months, claiming_age);
    }
}

} // verus!
