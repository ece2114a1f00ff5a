//! Early withdrawal: until when an account's withdrawals are taken before
//! its owner may take them freely.
//!
//! Two questions, because the statute asks them separately: a Roth's
//! earnings withdrawn before 59½ are ordinary income (non-qualified), and
//! the 10% additional tax falls on pre-tax dollars and non-qualified Roth
//! earnings before 59½ — with exemptions the income tax does not have, the
//! Rule of 55 and a 457(b).
use vstd::prelude::*;

use crate::account::{AccountFacts, AccountKind, PlanType};
use crate::person::{PersonId, PENALTY_FREE_AGE_MONTHS};
use crate::plan::{is_first_with_id, lex_before, Timeline};
use crate::year_month::YearMonth;

verus! {

/// Why a Rule of 55 election does not hold.
#[derive(Clone, Copy, Debug, PartialEq, Eq, Structural)]
pub enum Rule55Ineligibility {
    /// Only a 401(k)-style employer plan qualifies; an IRA never does.
    NotAnEmployerPlan,
    /// The owner leaves work before the calendar year they turn 55.
    SeparatedBefore55,
}

/// The months an account's withdrawals are early: each rule stops applying
/// in its month, and `None` means it never applies.
#[derive(Clone, Copy, Debug, PartialEq, Eq, Structural)]
pub struct EarlyAccess {
    /// A Roth's earnings are ordinary income before this month.
    pub nonqualified_until: Option<YearMonth>,
    /// Withdrawals carry the additional tax before this month.
    pub penalized_until: Option<YearMonth>,
}

/// The earlier of two months, by year then month; the first on a tie.
pub open spec fn lex_min(a: YearMonth, b: YearMonth) -> YearMonth {
    if lex_before(b, a) {
        b
    } else {
        a
    }
}

/// Whether the plan's owner lookup for `owner` would overflow the age-55
/// arithmetic.
pub open spec fn owner_years_fit(t: Timeline, owner: PersonId) -> bool {
    forall|i: int|
        is_first_with_id(t.people@, owner, i) ==> (#[trigger] t.people@[i]).birth.year + 55
            <= i32::MAX
}

/// Whether a Rule of 55 election holds, and from which month.
pub open spec fn spec_rule_of_55(t: Timeline, owner: PersonId, kind: AccountKind, plan_type: PlanType) -> Result<YearMonth, Rule55Ineligibility> {
    if plan_type != PlanType::EmployerPlan || !(kind == AccountKind::TraditionalPreTax || kind
        == AccountKind::Roth) {
        Err(Rule55Ineligibility::NotAnEmployerPlan)
    } else if t.lacks(owner) {
        Err(Rule55Ineligibility::SeparatedBefore55)
    } else {
        let p = t.people@[t.first_index(owner)];
        if p.retirement.year < p.birth.year + 55 {
            Err(Rule55Ineligibility::SeparatedBefore55)
        } else {
            Ok(p.retirement)
        }
    }
}

/// Whether a Rule of 55 election holds: separation from service — the
/// owner's retirement — in or after the calendar year they turn 55, from an
/// employer plan. The separation counts from the retirement month.
pub fn rule_of_55(t: &Timeline, owner: &PersonId, kind: AccountKind, plan_type: PlanType) -> (r:
    Result<YearMonth, Rule55Ineligibility>)
    requires
        owner_years_fit(*t, *owner),
    ensures
        r == spec_rule_of_55(*t, *owner, kind, plan_type),
{
    if plan_type != PlanType::EmployerPlan || !(kind == AccountKind::TraditionalPreTax || kind
        == AccountKind::Roth) {
        return Err(Rule55Ineligibility::NotAnEmployerPlan);
    }
    match t.person_index(owner) {
        None => Err(Rule55Ineligibility::SeparatedBefore55),
        Some(i) => {
            proof {
                crate::plan::lemma_first_with_id_unique(t.people@, *owner, i as int);
            }
            let person = &t.people[i];
            if person.retirement.year < person.birth.year + 55 {
                Err(Rule55Ineligibility::SeparatedBefore55)
            } else {
                Ok(person.retirement)
            }
        },
    }
}

/// An account's early-access months under the plan's rules.
pub open spec fn spec_early_access(t: Timeline, a: AccountFacts) -> EarlyAccess {
    if t.lacks(a.owner) {
        EarlyAccess { nonqualified_until: None, penalized_until: None }
    } else {
        let age_59_half = t.people@[t.first_index(a.owner)].birth.plus_months(
            PENALTY_FREE_AGE_MONTHS as int,
        );
        let penalized_until = if a.plan_type == PlanType::Plan457b {
            None
        } else if a.rule_of_55 && spec_rule_of_55(t, a.owner, a.kind, a.plan_type) is Ok {
            Some(lex_min(spec_rule_of_55(t, a.owner, a.kind, a.plan_type)->Ok_0, age_59_half))
        } else {
            Some(age_59_half)
        };
        match a.kind {
            AccountKind::TraditionalPreTax => EarlyAccess {
                nonqualified_until: None,
                penalized_until,
            },
            AccountKind::Roth => EarlyAccess {
                nonqualified_until: Some(age_59_half),
                penalized_until,
            },
            _ => EarlyAccess { nonqualified_until: None, penalized_until: None },
        }
    }
}

/// Each account's early-access months, in plan order, and every Rule of 55
/// election that does not hold (the account's index and why).
///
/// A 457(b) carries no additional tax at any age; a Rule of 55 election
/// that holds ends the penalty at separation if that comes before 59½;
/// taxable, savings and HSA money is never early.
pub fn resolve_early_access(t: &Timeline, accounts: &Vec<AccountFacts>) -> (r: (
    Vec<EarlyAccess>,
    Vec<(usize, Rule55Ineligibility)>,
))
    requires
        forall|k: int|
            0 <= k < accounts@.len() ==> owner_years_fit(*t, (#[trigger] accounts@[k]).owner),
    ensures
        r.0@.len() == accounts@.len(),
        forall|k: int|
            0 <= k < accounts@.len() ==> r.0@[k] == spec_early_access(*t, #[trigger] accounts@[k]),
        forall|w: int, v: int| 0 <= w < v < r.1@.len() ==> r.1@[w].0 < r.1@[v].0,
        forall|w: int|
            0 <= w < r.1@.len() ==> {
                let k = (#[trigger] r.1@[w]).0 as int;
                &&& k < accounts@.len()
                &&& accounts@[k].rule_of_55
                &&& spec_rule_of_55(*t, accounts@[k].owner, accounts@[k].kind, accounts@[k].plan_type)
                    == Err::<YearMonth, Rule55Ineligibility>(r.1@[w].1)
            },
        forall|k: int|
            0 <= k < accounts@.len() && (#[trigger] accounts@[k]).rule_of_55 && spec_rule_of_55(
                *t,
                accounts@[k].owner,
                accounts@[k].kind,
                accounts@[k].plan_type,
            ) is Err ==> exists|w: int| 0 <= w < r.1@.len() && r.1@[w].0 == k,
{
    let mut out: Vec<EarlyAccess> = Vec::new();
    let mut ineligible: Vec<(usize, Rule55Ineligibility)> = Vec::new();
    let mut k: usize = 0;
    while k < accounts.len()
        invariant
            k <= accounts@.len(),
            forall|q: int|
                0 <= q < accounts@.len() ==> owner_years_fit(*t, (#[trigger] accounts@[q]).owner),
            out@.len() == k,
            forall|q: int| 0 <= q < k ==> out@[q] == spec_early_access(*t, #[trigger] accounts@[q]),
            forall|w: int, v: int|
                0 <= w < v < ineligible@.len() ==> ineligible@[w].0 < ineligible@[v].0,
            forall|w: int|
                0 <= w < ineligible@.len() ==> {
                    let q = (#[trigger] ineligible@[w]).0 as int;
                    &&& q < k
                    &&& accounts@[q].rule_of_55
                    &&& spec_rule_of_55(
                        *t,
                        accounts@[q].owner,
                        accounts@[q].kind,
                        accounts@[q].plan_type,
                    ) == Err::<YearMonth, Rule55Ineligibility>(ineligible@[w].1)
                },
            forall|q: int|
                0 <= q < k && (#[trigger] accounts@[q]).rule_of_55 && spec_rule_of_55(
                    *t,
                    accounts@[q].owner,
                    accounts@[q].kind,
                    accounts@[q].plan_type,
                ) is Err ==> exists|w: int| 0 <= w < ineligible@.len() && ineligible@[w].0 == q,
        decreases accounts@.len() - k,
    {
        let account = &accounts[k];
        let eligibility: Option<Result<YearMonth, Rule55Ineligibility>> = if account.rule_of_55 {
            Some(rule_of_55(t, &account.owner, account.kind, account.plan_type))
        } else {
            None
        };
        let ghost prev = ineligible@;
        match eligibility {
            Some(Err(reason)) => {
                ineligible.push((k, reason));
            },
            _ => {},
        }
        proof {
            assert forall|q: int|
                0 <= q < k + 1 && (#[trigger] accounts@[q]).rule_of_55 && spec_rule_of_55(
                    *t,
                    accounts@[q].owner,
                    accounts@[q].kind,
                    accounts@[q].plan_type,
                ) is Err implies exists|w: int|
                0 <= w < ineligible@.len() && ineligible@[w].0 == q by {
                if q < k {
                    let w = choose|w: int| 0 <= w < prev.len() && prev[w].0 == q;
                    assert(ineligible@[w] == prev[w]);
                } else {
                    assert(ineligible@[ineligible@.len() - 1].0 == q);
                }
            }
        }
        let access = match t.person_index(&account.owner) {
            None => EarlyAccess { nonqualified_until: None, penalized_until: None },
            Some(i) => {
                proof {
                    crate::plan::lemma_first_with_id_unique(t.people@, account.owner, i as int);
                }
                let age_59_half = t.people[i].penalty_free_month();
                let penalized_until = if account.plan_type == PlanType::Plan457b {
                    None
                } else {
                    match eligibility {
                        Some(Ok(separation)) => Some(
                            if crate::plan::is_lex_before(age_59_half, separation) {
                                age_59_half
                            } else {
                                separation
                            },
                        ),
                        _ => Some(age_59_half),
                    }
                };
                match account.kind {
                    AccountKind::TraditionalPreTax => EarlyAccess {
                        nonqualified_until: None,
                        penalized_until,
                    },
                    AccountKind::Roth => EarlyAccess {
                        nonqualified_until: Some(age_59_half),
                        penalized_until,
                    },
                    _ => EarlyAccess { nonqualified_until: None, penalized_until: None },
                }
            },
        };
        out.push(access);
        k = k + 1;
    }
    (out, ineligible)
}

/// Months of `[from, to)` before `until`; none for a rule that never
/// applies.
pub open spec fn spec_months_before(until: Option<YearMonth>, from: YearMonth, to: YearMonth) -> int {
    match until {
        None => 0,
        Some(u) => {
            let end = YearMonth::earlier(to, u);
            if from.index() < end.index() {
                end.index() - from.index()
            } else {
                0
            }
        },
    }
}

impl EarlyAccess {
    /// Months of `[from, to)` that fall before each rule stops applying:
    /// (non-qualified months, penalized months). A period straddling the
    /// month is split at it, on the assumption that withdrawals are spread
    /// evenly through the period.
    pub fn early_months(&self, from: YearMonth, to: YearMonth) -> (r: (i64, i64))
        ensures
            r.0 == spec_months_before(self.nonqualified_until, from, to),
            r.1 == spec_months_before(self.penalized_until, from, to),
    {
        (months_before(self.nonqualified_until, from, to), months_before(self.penalized_until, from, to))
    }
}

fn months_before(until: Option<YearMonth>, from: YearMonth, to: YearMonth) -> (r: i64)
    ensures
        r == spec_months_before(until, from, to),
{
    match until {
        None => 0,
        Some(u) => {
            let end = to.min(u);
            let months = from.months_until(end);
            if months > 0 {
                months
            } else {
                0
            }
        },
    }
}

/// Money that is never early: a 457(b) carries no additional tax at any
/// age, and taxable, savings and HSA dollars are neither penalized nor
/// non-qualified.
pub proof fn lemma_never_early(t: Timeline, a: AccountFacts)
    ensures
        a.plan_type == PlanType::Plan457b ==> spec_early_access(t, a).penalized_until is None,
        (a.kind == AccountKind::Taxable || a.kind == AccountKind::Savings || a.kind
            == AccountKind::Hsa) ==> spec_early_access(t, a) == (EarlyAccess {
            nonqualified_until: None,
            penalized_until: None,
        }),
{
}

/// The exemptions only ever shorten the penalty: an account's additional
/// tax never runs past its owner's 59½.
pub proof fn lemma_penalty_ends_by_59_and_a_half(t: Timeline, a: AccountFacts)
    requires
        !t.lacks(a.owner),
    ensures
        spec_early_access(t, a).penalized_until matches Some(p) ==> !lex_before(
            t.people@[t.first_index(a.owner)].birth.plus_months(PENALTY_FREE_AGE_MONTHS as int),
            p,
        ),
{
}

/// A penalized month is always a non-qualified one for a Roth: the
/// exemptions only ever shorten the penalty, never the income rule.
pub proof fn lemma_roth_penalty_within_nonqualified(t: Timeline, a: AccountFacts)
    requires
        a.kind == AccountKind::Roth,
        !t.lacks(a.owner),
    ensures
        spec_early_access(t, a).penalized_until matches Some(p) ==> !lex_before(
            spec_early_access(t, a).nonqualified_until->Some_0,
            p,
        ),
{
}

} // verus!
