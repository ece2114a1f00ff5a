//! Which statutory contribution figures apply to an owner: the bucket's
//! base limit, and the catch-up tier their age puts them in.
use vstd::prelude::*;

use crate::account::{spec_default_plan_type, AccountKind, PlanType};

verus! {

/// The catch-up tier an owner's contributions to a bucket fall in, by the
/// age they reach during the calendar year.
#[derive(Clone, Copy, Debug, PartialEq, Eq, Structural)]
pub enum CatchUp {
    /// No catch-up on top of the base limit.
    Ineligible,
    /// The catch-up from age 50.
    From50,
    /// The HSA catch-up from age 55 (a fixed figure, not indexed).
    From55,
    /// The enhanced catch-up for ages 60 through 63 (SECURE 2.0).
    From60To63,
}

/// The tier of the employer-plan (414(v)) catch-up: the enhanced one at
/// 60–63, the ordinary one from 50.
pub open spec fn spec_employer_catch_up(age: int) -> CatchUp {
    if 60 <= age <= 63 {
        CatchUp::From60To63
    } else if age >= 50 {
        CatchUp::From50
    } else {
        CatchUp::Ineligible
    }
}

/// The catch-up tier for `plan_type` at `age`; `None` for a bucket with no
/// statutory cap at all.
pub open spec fn spec_catch_up(plan_type: PlanType, age: int) -> Option<CatchUp> {
    match plan_type {
        PlanType::Uncapped => None,
        PlanType::EmployerPlan | PlanType::Plan457b | PlanType::SimpleIra => Some(
            spec_employer_catch_up(age),
        ),
        PlanType::Ira => Some(
            if age >= 50 {
                CatchUp::From50
            } else {
                CatchUp::Ineligible
            },
        ),
        PlanType::Hsa => Some(
            if age >= 55 {
                CatchUp::From55
            } else {
                CatchUp::Ineligible
            },
        ),
        PlanType::SepIra => Some(CatchUp::Ineligible),
    }
}

/// The employer-plan catch-up tier at `age` — also the one the 415(c)
/// annual-additions cap adds back.
pub fn employer_catch_up(age: i32) -> (r: CatchUp)
    ensures
        r == spec_employer_catch_up(age as int),
{
    if 60 <= age && age <= 63 {
        CatchUp::From60To63
    } else if age >= 50 {
        CatchUp::From50
    } else {
        CatchUp::Ineligible
    }
}

/// The catch-up tier an owner reaching `age` this year gets in
/// `plan_type`: employer plans, 457(b) and SIMPLE IRAs by the 414(v) tiers,
/// IRAs from 50, HSAs from 55, and SEP-IRAs (employer money only) never.
/// `None` means the bucket has no cap: a taxable brokerage or savings.
pub fn catch_up(plan_type: PlanType, age: i32) -> (r: Option<CatchUp>)
    ensures
        r == spec_catch_up(plan_type, age as int),
{
    match plan_type {
        PlanType::Uncapped => None,
        PlanType::EmployerPlan | PlanType::Plan457b | PlanType::SimpleIra => Some(
            employer_catch_up(age),
        ),
        PlanType::Ira => Some(
            if age >= 50 {
                CatchUp::From50
            } else {
                CatchUp::Ineligible
            },
        ),
        PlanType::Hsa => Some(
            if age >= 55 {
                CatchUp::From55
            } else {
                CatchUp::Ineligible
            },
        ),
        PlanType::SepIra => Some(CatchUp::Ineligible),
    }
}

/// Catch-up eligibility never lapses with age, except the enhanced 60–63
/// tier, which falls back to the ordinary one from 64: whoever has a
/// catch-up at one age has one at every later age.
pub proof fn lemma_catch_up_never_lapses(plan_type: PlanType, a: int, b: int)
    requires
        a <= b,
        spec_catch_up(plan_type, a) matches Some(t) && t != CatchUp::Ineligible,
    ensures
        spec_catch_up(plan_type, b) matches Some(u) && u != CatchUp::Ineligible,
{
}

/// The bucket a plan file written before buckets existed is read into.
/// Without a legacy limit the kind decides; a kind with no cap stays
/// uncapped whatever limit it carried; otherwise the limit picks the bucket
/// whose figure it is closer to (`closer_to_ira`, decided where the limit
/// is compared).
pub fn migrated_plan_type(kind: AccountKind, closer_to_ira: Option<bool>) -> (r: PlanType)
    ensures
        r == match closer_to_ira {
            None => spec_default_plan_type(kind),
            Some(ira) => if spec_default_plan_type(kind) == PlanType::Uncapped {
                PlanType::Uncapped
            } else if ira {
                PlanType::Ira
            } else {
                PlanType::EmployerPlan
            },
        },
{
    let default = PlanType::default_for(kind);
    match closer_to_ira {
        None => default,
        Some(ira) => if default == PlanType::Uncapped {
            default
        } else if ira {
            PlanType::Ira
        } else {
            PlanType::EmployerPlan
        },
    }
}

/// Who gets which catch-up: an IRA's from 50; an HSA's from 55; the
/// employer plan's ordinary one from 50, replaced by the enhanced one
/// exactly at 60 through 63; 457(b) and SIMPLE IRA owners the employer
/// plan's tiers; a SEP-IRA's never; and an uncapped bucket has no limit at
/// all.
pub proof fn lemma_catch_up_ages(age: int)
    ensures
        spec_catch_up(PlanType::Ira, age) is Some,
        spec_catch_up(PlanType::Ira, age) == Some(CatchUp::From50) <==> age >= 50,
        spec_catch_up(PlanType::Ira, age) == Some(CatchUp::Ineligible) <==> age < 50,
        spec_catch_up(PlanType::Hsa, age) is Some,
        spec_catch_up(PlanType::Hsa, age) == Some(CatchUp::From55) <==> age >= 55,
        spec_catch_up(PlanType::Hsa, age) == Some(CatchUp::Ineligible) <==> age < 55,
        spec_catch_up(PlanType::EmployerPlan, age) == Some(CatchUp::From60To63) <==> 60 <= age
            <= 63,
        spec_catch_up(PlanType::EmployerPlan, age) == Some(CatchUp::From50) <==> (age >= 50 && !(60
            <= age <= 63)),
        spec_catch_up(PlanType::EmployerPlan, age) == Some(CatchUp::Ineligible) <==> age < 50,
        spec_catch_up(PlanType::Plan457b, age) == spec_catch_up(PlanType::EmployerPlan, age),
        spec_catch_up(PlanType::SimpleIra, age) == spec_catch_up(PlanType::EmployerPlan, age),
        spec_catch_up(PlanType::SepIra, age) == Some(CatchUp::Ineligible),
        spec_catch_up(PlanType::Uncapped, age) is None,
{
}

} // verus!
