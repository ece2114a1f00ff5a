//! Dated cash flows and the boundaries that turn them on and off.
use vstd::prelude::*;

use crate::person::PersonId;
use crate::year_month::YearMonth;

verus! {

/// A stream's stable identity within a plan.
pub type StreamId = String;

#[derive(Clone, Copy, Debug, PartialEq, Eq, Structural)]
pub enum StreamDirection {
    Income,
    Expense,
}

/// When a stream turns on or off. Person-relative boundaries mean editing a
/// retirement date moves every stream tied to it.
#[derive(Clone, Debug, PartialEq, Eq)]
pub enum StreamBoundary {
    PlanStart,
    PlanEnd,
    Date(YearMonth),
    AtRetirement(PersonId),
    AtDeath(PersonId),
    /// The month this person reaches a whole-year age: the month they were
    /// born in, that many years on.
    AtAge(PersonId, u8),
}

/// What a stream stands for, where that changes how its amount is read.
#[derive(Clone, Copy, Debug, PartialEq, Eq, Structural)]
pub enum StreamKind {
    /// Salary, spending, one-offs: the amount is in simulation-start
    /// dollars and grows from the simulation start.
    General,
    /// A defined-benefit pension: the amount is the benefit at its first
    /// payment, and its cost-of-living adjustment grows from there.
    Pension,
}

/// `General`: what a plan written before pensions had a kind of their own
/// loads as.
impl Default for StreamKind {
    fn default() -> (r: StreamKind)
        ensures
            r == StreamKind::General,
    {
        StreamKind::General
    }
}

/// When surplus cash starts being swept into the taxable account, for a
/// plan file that may carry the boolean that came before the boundary: an
/// explicit boundary always wins, and otherwise `true` sweeps from plan
/// start and `false` never sweeps.
pub fn migrated_sweep(explicit: Option<StreamBoundary>, legacy_sweep: bool) -> (r: Option<
    StreamBoundary,
>)
    ensures
        r == match explicit {
            Some(b) => Some(b),
            None => if legacy_sweep {
                Some(StreamBoundary::PlanStart)
            } else {
                None
            },
        },
{
    match explicit {
        Some(b) => Some(b),
        None => if legacy_sweep {
            Some(StreamBoundary::PlanStart)
        } else {
            None
        },
    }
}

/// What a view needs to label a stream that took part in a run: its id,
/// its name, and which way its money flows. Benefits and survivor
/// continuations are made up at simulation time with ids the plan never
/// holds, and this is how a view names them.
#[derive(Clone, Debug, PartialEq)]
pub struct StreamInfo {
    pub id: StreamId,
    pub name: String,
    pub direction: StreamDirection,
}

} // verus!
