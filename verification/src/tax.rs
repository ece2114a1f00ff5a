//! Filing status, the state label a bracket schedule was prefilled from,
//! and when a household's return switches to a survivor's.
use vstd::prelude::*;

use crate::plan::{has_transition, lex_before, survivors, transition_month, Timeline};

verus! {

/// Federal filing status.
#[derive(Clone, Copy, Debug, PartialEq, Eq, Structural)]
pub enum FilingStatus {
    Single,
    MarriedFilingJointly,
}

/// `Single`: what a plan written before filing status existed loads as.
impl Default for FilingStatus {
    fn default() -> (r: FilingStatus)
        ensures
            r == FilingStatus::Single,
    {
        FilingStatus::Single
    }
}

/// A figure that differs by filing status.
#[derive(Clone, Debug, PartialEq)]
pub struct ByFilingStatus<T> {
    pub single: T,
    pub married_filing_jointly: T,
}

impl<T> ByFilingStatus<T> {
    /// The figure for `status`.
    pub fn get(&self, status: FilingStatus) -> (r: &T)
        ensures
            *r == match status {
                FilingStatus::Single => self.single,
                FilingStatus::MarriedFilingJointly => self.married_filing_jointly,
            },
    {
        match status {
            FilingStatus::Single => &self.single,
            FilingStatus::MarriedFilingJointly => &self.married_filing_jointly,
        }
    }
}

/// Which state's published brackets a plan's state schedule was last
/// prefilled from. A label only: the schedule itself is what is taxed.
#[derive(Clone, Copy, Debug, PartialEq, Eq, Structural, PartialOrd, Ord)]
pub enum StateCode {
    Alabama,
    Alaska,
    Arizona,
    Arkansas,
    California,
    Colorado,
    Connecticut,
    Delaware,
    Florida,
    Georgia,
    Hawaii,
    Idaho,
    Illinois,
    Indiana,
    Iowa,
    Kansas,
    Kentucky,
    Louisiana,
    Maine,
    Maryland,
    Massachusetts,
    Michigan,
    Minnesota,
    Mississippi,
    Missouri,
    Montana,
    Nebraska,
    Nevada,
    NewHampshire,
    NewJersey,
    NewMexico,
    NewYork,
    NorthCarolina,
    NorthDakota,
    Ohio,
    Oklahoma,
    Oregon,
    Pennsylvania,
    RhodeIsland,
    SouthCarolina,
    SouthDakota,
    Tennessee,
    Texas,
    Utah,
    Vermont,
    Virginia,
    Washington,
    WashingtonDc,
    WestVirginia,
    Wisconsin,
    Wyoming,
    /// No state selected, or a hand-entered schedule.
    Other,
}

/// Which of a household's two returns taxes a period.
#[derive(Clone, Copy, Debug, PartialEq, Eq, Structural)]
pub enum TaxReturn {
    /// The household's own filing status, through the period of the first
    /// death.
    Household,
    /// Single, from the first period after it.
    Survivor,
}

/// The return that taxes `period`, given the first period taxed as the
/// survivor's (`None` when nothing changes).
pub fn return_for_period(survivor_from: Option<usize>, period: usize) -> (r: TaxReturn)
    ensures
        r == (match survivor_from {
            Some(from) => if period >= from {
                TaxReturn::Survivor
            } else {
                TaxReturn::Household
            },
            None => TaxReturn::Household,
        }),
{
    match survivor_from {
        Some(from) => if period >= from {
            TaxReturn::Survivor
        } else {
            TaxReturn::Household
        },
        None => TaxReturn::Household,
    }
}

impl Timeline {
    /// The first death's year fits the period arithmetic.
    pub open spec fn first_death_year_fits(self) -> bool {
        has_transition(self.people@) ==> {
            let d = transition_month(self.people@);
            !lex_before(d, self.sim_config.start) ==> d.year < i32::MAX && d.year + 1
                - self.sim_config.start.year <= i32::MAX
        }
    }

    /// The first period taxed as a survivor's return: the period after the
    /// first death that leaves someone behind, for a household filing
    /// jointly. `None` otherwise — a plan already filing Single has nothing
    /// to lose.
    pub fn survivor_from(&self, filing_status: FilingStatus) -> (r: Option<usize>)
        requires
            self.first_death_year_fits(),
        ensures
            filing_status == FilingStatus::Single ==> r is None,
            filing_status == FilingStatus::MarriedFilingJointly ==> r == (if has_transition(
                self.people@,
            ) {
                Some(
                    self.sim_config.spec_first_period_after(transition_month(self.people@))
                        as usize,
                )
            } else {
                None
            }),
    {
        match filing_status {
            FilingStatus::Single => None,
            FilingStatus::MarriedFilingJointly => match self.first_death() {
                Some((month, _)) => Some(self.sim_config.first_period_after(month)),
                None => None,
            },
        }
    }

    /// Whose birth years the survivor's return carries: those who outlive
    /// the first death, or — with no death that leaves anyone behind —
    /// everyone's, since the household's own return stands in for it.
    pub fn survivor_filer_birth_years(&self) -> (r: Vec<i32>)
        ensures
            has_transition(self.people@) ==> r@.len() == survivors(
                self.people@,
                transition_month(self.people@),
            ).len() && forall|k: int|
                0 <= k < r@.len() ==> r@[k] == survivors(
                    self.people@,
                    transition_month(self.people@),
                )[k].birth.year,
            !has_transition(self.people@) ==> r@.len() == self.people@.len() && forall|k: int|
                0 <= k < r@.len() ==> r@[k] == (#[trigger] self.people@[k]).birth.year,
    {
        match self.first_death() {
            Some((month, _)) => {
                let living = self.survivors_after(month);
                let mut out: Vec<i32> = Vec::new();
                let mut i: usize = 0;
                while i < living.len()
                    invariant
                        i <= living@.len(),
                        out@.len() == i,
                        forall|k: int| 0 <= k < i ==> out@[k] == (*living@[k]).birth.year,
                    decreases living@.len() - i,
                {
                    out.push(living[i].birth.year);
                    i = i + 1;
                }
                out
            },
            None => self.birth_years(),
        }
    }
}

} // verus!
