//! The people a plan is for.
use vstd::prelude::*;

use crate::year_month::YearMonth;

verus! {

/// A person's stable identity within a plan.
pub type PersonId = String;

/// Years and months of the age at which the early-withdrawal penalty stops
/// applying: 59½.
pub const PENALTY_FREE_AGE_MONTHS: i64 = 714;

#[derive(Clone, Debug)]
pub struct Person {
    pub id: PersonId,
    pub name: String,
    pub birth: YearMonth,
    pub retirement: YearMonth,
    /// Mortality assumption for this person: a boundary at their death
    /// resolves against it, and the plan's horizon runs to the last of
    /// everyone's.
    pub life_expectancy_age: u8,
}

/// The month `p` reaches `age` whole years: their birth month, that many
/// years on.
pub open spec fn month_at(p: Person, age: int) -> YearMonth {
    p.birth.plus_months(age * 12)
}

/// The month `p` is assumed to die: the month they reach their life
/// expectancy.
pub open spec fn death_month(p: Person) -> YearMonth {
    month_at(p, p.life_expectancy_age as int)
}

impl Person {
    /// The month this person reaches `age` years.
    pub fn month_at_age(&self, age: u8) -> (r: YearMonth)
        ensures
            r == month_at(*self, age as int),
            r.valid(),
    {
        self.birth.add_years(age as i32)
    }

    /// The month this person reaches 59½, from which their withdrawals no
    /// longer carry the early-withdrawal penalty.
    pub fn penalty_free_month(&self) -> (r: YearMonth)
        ensures
            r == self.birth.plus_months(PENALTY_FREE_AGE_MONTHS as int),
            r.valid(),
    {
        self.birth.add_months(PENALTY_FREE_AGE_MONTHS)
    }

    /// The month this person is assumed to die.
    pub fn death(&self) -> (r: YearMonth)
        ensures
            r == death_month(*self),
            r.valid(),
    {
        self.month_at_age(self.life_expectancy_age)
    }
}

/// A person as a plan file may carry them: written before each person had
/// a life expectancy of their own, when only the household-wide plan end
/// age existed.
#[derive(Clone, Debug)]
pub struct PersonWire {
    pub id: PersonId,
    pub name: String,
    pub birth: YearMonth,
    pub retirement: YearMonth,
    pub life_expectancy_age: Option<u8>,
}

impl PersonWire {
    /// The person, with a missing life expectancy taken from the plan's
    /// household-wide `fallback_plan_end_age`. An explicit one is kept.
    pub fn resolve(self, fallback_plan_end_age: u8) -> (r: Person)
        ensures
            r.id == self.id,
            r.name == self.name,
            r.birth == self.birth,
            r.retirement == self.retirement,
            r.life_expectancy_age == match self.life_expectancy_age {
                Some(age) => age,
                None => fallback_plan_end_age,
            },
    {
        let life_expectancy_age = match self.life_expectancy_age {
            Some(age) => age,
            None => fallback_plan_end_age,
        };
        Person {
            id: self.id,
            name: self.name,
            birth: self.birth,
            retirement: self.retirement,
            life_expectancy_age,
        }
    }
}

} // verus!
