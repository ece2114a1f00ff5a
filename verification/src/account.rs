//! Account tax treatment and the statutory contribution bucket an account
//! draws on: two separate axes, each with one job.
use vstd::prelude::*;

verus! {

/// An account's stable identity within a plan.
pub type AccountId = String;

/// How an account is taxed.
#[derive(Clone, Copy, Debug, PartialEq, Eq, Structural, PartialOrd, Ord, Hash)]
pub enum AccountKind {
    /// Brokerage: contributions form cost basis; withdrawals realize gains
    /// proportionally, taxed as capital gains.
    Taxable,
    /// 401(k)/Traditional IRA: withdrawals are ordinary income.
    TraditionalPreTax,
    /// Roth IRA/401(k): qualified withdrawals are untaxed.
    Roth,
    /// Cash savings: interest is taxed as it accrues, so withdrawals are
    /// untaxed.
    Savings,
    /// Health Savings Account: pre-tax in, untaxed out.
    Hsa,
}

/// Which statutory contribution limit an account is held to.
#[derive(Clone, Copy, Debug, PartialEq, Eq, Structural, PartialOrd, Ord, Hash)]
pub enum PlanType {
    /// 401(k)/403(b)/401(a)/TSP elective deferrals, one limit per person.
    EmployerPlan,
    /// Traditional and Roth IRAs, sharing one limit.
    Ira,
    /// 457(b): statutorily separate from `EmployerPlan`.
    Plan457b,
    /// Health Savings Account (self-only coverage limit).
    Hsa,
    /// SEP-IRA: employer-only contributions.
    SepIra,
    /// SIMPLE IRA: its own deferral limit and catch-up tiers.
    SimpleIra,
    /// No statutory cap — a taxable brokerage or a savings account.
    Uncapped,
}

pub open spec fn spec_default_plan_type(kind: AccountKind) -> PlanType {
    match kind {
        AccountKind::Taxable | AccountKind::Savings => PlanType::Uncapped,
        AccountKind::TraditionalPreTax => PlanType::EmployerPlan,
        AccountKind::Roth => PlanType::Ira,
        AccountKind::Hsa => PlanType::Hsa,
    }
}

impl PlanType {
    /// The bucket an account of this kind belongs to by default: pre-tax
    /// means a 401(k)-style plan, Roth a Roth IRA. Overridable per account.
    pub fn default_for(kind: AccountKind) -> (r: PlanType)
        ensures
            r == spec_default_plan_type(kind),
    {
        match kind {
            AccountKind::Taxable | AccountKind::Savings => PlanType::Uncapped,
            AccountKind::TraditionalPreTax => PlanType::EmployerPlan,
            AccountKind::Roth => PlanType::Ira,
            AccountKind::Hsa => PlanType::Hsa,
        }
    }
}

/// The plain facts about an account that the simulation's rules read: who
/// owns it, how it is taxed, which bucket it draws on, and whether its
/// owner has elected the Rule of 55 for it.
#[derive(Clone, Debug)]
pub struct AccountFacts {
    pub id: AccountId,
    pub owner: crate::person::PersonId,
    pub kind: AccountKind,
    pub plan_type: PlanType,
    pub rule_of_55: bool,
}

/// Where an employer match lands: the pre-tax or the Roth account.
#[derive(Clone, Copy, Debug, PartialEq, Eq, Structural)]
pub enum MatchDestination {
    PreTax,
    Roth,
}

/// The two axes agree where they overlap: a taxable brokerage draws on no
/// statutory bucket, and an account of any other kind draws on one.
pub open spec fn spec_kind_agrees_with_plan_type(kind: AccountKind, plan_type: PlanType) -> bool {
    (kind == AccountKind::Taxable) == (plan_type == PlanType::Uncapped)
}

/// Whether an account's kind and bucket agree (see
/// `spec_kind_agrees_with_plan_type`).
pub fn kind_agrees_with_plan_type(kind: AccountKind, plan_type: PlanType) -> (r: bool)
    ensures
        r == spec_kind_agrees_with_plan_type(kind, plan_type),
{
    (kind == AccountKind::Taxable) == (plan_type == PlanType::Uncapped)
}

/// Whether reinvested cash — swept surplus, or what is left of a required
/// distribution — may land in an account of this kind: after-tax accounts
/// whose cost basis means something.
pub fn is_reinvest_target(kind: AccountKind) -> (r: bool)
    ensures
        r == (kind == AccountKind::Taxable || kind == AccountKind::Savings),
{
    kind == AccountKind::Taxable || kind == AccountKind::Savings
}

/// Account `a` may receive reinvested cash and, when `named` is set, has
/// that id.
pub open spec fn fits_reinvest(a: AccountFacts, named: Option<Seq<char>>) -> bool {
    &&& (a.kind == AccountKind::Taxable || a.kind == AccountKind::Savings)
    &&& match named {
        Some(id) => a.id@ == id,
        None => true,
    }
}

/// The first account at or after `k` that fits, if any.
pub open spec fn first_fit(accounts: Seq<AccountFacts>, named: Option<Seq<char>>, k: int) -> Option<
    int,
>
    decreases accounts.len() - k,
{
    if k < 0 || k >= accounts.len() {
        None
    } else if fits_reinvest(accounts[k], named) {
        Some(k)
    } else {
        first_fit(accounts, named, k + 1)
    }
}

/// Where reinvested cash lands: the first taxable or savings account with
/// the named id, and failing that (no name, or a name no such account
/// has) the first taxable or savings account in plan order.
pub open spec fn spec_reinvest_target(accounts: Seq<AccountFacts>, named: Option<AccountId>) -> Option<
    int,
> {
    match named {
        Some(id) => match first_fit(accounts, Some(id@), 0) {
            Some(k) => Some(k),
            None => first_fit(accounts, None, 0),
        },
        None => first_fit(accounts, None, 0),
    }
}

fn find_fit(accounts: &Vec<AccountFacts>, named: Option<&AccountId>) -> (r: Option<usize>)
    ensures
        match r {
            Some(k) => first_fit(
                accounts@,
                match named {
                    Some(id) => Some(id@),
                    None => None,
                },
                0,
            ) == Some(k as int),
            None => first_fit(
                accounts@,
                match named {
                    Some(id) => Some(id@),
                    None => None,
                },
                0,
            ) is None,
        },
{
    let ghost name = match named {
        Some(id) => Some(id@),
        None => None,
    };
    let mut k: usize = 0;
    while k < accounts.len()
        invariant
            k <= accounts@.len(),
            name == match named {
                Some(id) => Some(id@),
                None => None,
            },
            first_fit(accounts@, name, 0) == first_fit(accounts@, name, k as int),
        decreases accounts@.len() - k,
    {
        let a = &accounts[k];
        let id_fits = match named {
            Some(id) => a.id == *id,
            None => true,
        };
        let fits = is_reinvest_target(a.kind) && id_fits;
        if fits {
            return Some(k);
        }
        k = k + 1;
    }
    None
}

/// Where reinvested cash — swept surplus, and what is left of a required
/// distribution — lands: the first taxable or savings account with the id
/// the plan names, else the first taxable or savings account in plan
/// order; `None` when the plan has neither.
pub fn reinvest_target(accounts: &Vec<AccountFacts>, named: &Option<AccountId>) -> (r: Option<usize>)
    ensures
        match r {
            Some(k) => spec_reinvest_target(accounts@, *named) == Some(k as int),
            None => spec_reinvest_target(accounts@, *named) is None,
        },
{
    match named {
        Some(id) => match find_fit(accounts, Some(id)) {
            Some(k) => Some(k),
            None => find_fit(accounts, None),
        },
        None => find_fit(accounts, None),
    }
}

/// The default bucket agrees with the kind for every kind but savings,
/// which no statutory bucket covers and which is not a brokerage either.
pub proof fn lemma_default_plan_type_agrees(kind: AccountKind)
    requires
        kind != AccountKind::Savings,
    ensures
        spec_kind_agrees_with_plan_type(kind, spec_default_plan_type(kind)),
{
}

} // verus!
