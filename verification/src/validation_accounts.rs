//! The accounts section of a plan's validation.
use vstd::prelude::*;

use crate::account::{AccountId, AccountKind, PlanType};
use crate::person::{Person, PersonId};
use crate::text::push_str;
use crate::validation::{
    about, about_text, field_for, item_field, knows, knows_person, push_error, texts, ErrorText,
    ValidationError,
};

verus! {

/// What validation reads of one contribution rule. The comparisons on
/// amounts are made where the amounts are: the rule arrives with their
/// outcome.
#[derive(Clone, Debug)]
pub enum ContributionCheck {
    /// A flat amount, and whether it is below zero.
    FlatAmount { negative: bool },
    /// A share of salary: whether it lies in 0%..=100%, the share as the
    /// whole percent the message shows (`{:.0}` of the percentage), and
    /// whether its step-up, if it has one, stops below where it starts.
    PercentOfSalary { in_range: bool, percent: String, cap_below_start: bool },
    /// The statutory maximum for the account's bucket.
    FederalMaximum,
}

/// What validation reads of one employer-match tier: the tier's width as a
/// whole percent when it is not above 0% and at most 100%, and whether it
/// pays a negative rate.
#[derive(Clone, Debug)]
pub struct TierCheck {
    pub width_out_of_range: Option<String>,
    pub negative_rate: bool,
}

/// What validation reads of an employer match: the total width of its
/// tiers as a whole percent when that exceeds 100%, and each tier.
#[derive(Clone, Debug)]
pub struct MatchCheck {
    pub covers_over_whole: Option<String>,
    pub tiers: Vec<TierCheck>,
}

/// What validation reads of an account.
#[derive(Clone, Debug)]
pub struct AccountCheck {
    pub id: AccountId,
    pub owner: PersonId,
    pub name: String,
    pub kind: AccountKind,
    pub plan_type: PlanType,
    /// The starting balance is below zero.
    pub negative_balance: bool,
    pub contributions: Vec<ContributionCheck>,
    pub employer_match: Option<MatchCheck>,
}

/// `accounts[i]` shares its id with an account listed before it.
pub open spec fn account_repeats(accounts: Seq<AccountCheck>, i: int) -> bool {
    exists|j: int| 0 <= j < i && (#[trigger] accounts[j]).id@ == accounts[i].id@
}

/// One error, or none.
pub open spec fn one_if(cond: bool, field: Seq<char>, message: Seq<char>) -> Seq<ErrorText> {
    if cond {
        seq![(field, message)]
    } else {
        Seq::empty()
    }
}

/// The error of an account whose kind and bucket disagree.
pub open spec fn plan_type_errors(i: int, a: AccountCheck) -> Seq<ErrorText> {
    let taxable = a.kind == AccountKind::Taxable;
    one_if(
        taxable != (a.plan_type == PlanType::Uncapped),
        item_field("accounts["@, i, "plan_type"@),
        if taxable {
            about(a.name@, " is a taxable brokerage, so it isn't a 401(k) or an IRA."@)
        } else {
            about(a.name@, " is a retirement account, so it needs a plan type."@)
        },
    )
}

/// The error of one contribution rule of account `i`, if it has one.
pub open spec fn contribution_error(i: int, a: AccountCheck, c: ContributionCheck) -> Seq<ErrorText> {
    let field = item_field("accounts["@, i, "contribution"@);
    match c {
        ContributionCheck::FlatAmount { negative } => one_if(
            negative,
            field,
            about(a.name@, " can't contribute a negative amount."@),
        ),
        ContributionCheck::PercentOfSalary { in_range, percent, cap_below_start } => one_if(
            !in_range,
            field,
            about(
                a.name@,
                " contributes "@ + percent@ + "% of salary — it has to be between 0% and 100%."@,
            ),
        ) + one_if(
            cap_below_start,
            field,
            about(
                a.name@,
                " steps up to a cap below its starting percentage — the cap has to be at or above it."@,
            ),
        ),
        ContributionCheck::FederalMaximum => one_if(
            a.plan_type == PlanType::Uncapped,
            field,
            about(a.name@, " has no federal maximum — a taxable brokerage is uncapped."@),
        ),
    }
}

/// The errors of the first `n` contribution rules of account `i`.
pub open spec fn contribution_errors(i: int, a: AccountCheck, n: int) -> Seq<ErrorText>
    decreases n,
{
    if n <= 0 {
        Seq::empty()
    } else {
        contribution_errors(i, a, n - 1) + contribution_error(i, a, a.contributions@[n - 1])
    }
}

/// The errors of one match tier of the account named `name`.
pub open spec fn tier_error(field: Seq<char>, name: Seq<char>, t: TierCheck) -> Seq<ErrorText> {
    (match t.width_out_of_range {
        Some(p) => seq![
            (
                field,
                about(
                    name,
                    " has a match tier covering "@ + p@
                        + "% of salary — it has to be above 0% and at most 100%."@,
                ),
            ),
        ],
        None => Seq::empty(),
    }) + one_if(t.negative_rate, field, about(name, " has a match tier paying a negative rate."@))
}

/// The errors of the first `n` tiers.
pub open spec fn tier_errors(field: Seq<char>, name: Seq<char>, tiers: Seq<TierCheck>, n: int) -> Seq<
    ErrorText,
>
    decreases n,
{
    if n <= 0 {
        Seq::empty()
    } else {
        tier_errors(field, name, tiers, n - 1) + tier_error(field, name, tiers[n - 1])
    }
}

/// The errors of account `i`'s employer match: one on anything but an
/// employer plan, one with no tiers, one whose tiers cover more than the
/// whole salary, and each tier's own.
pub open spec fn match_errors(i: int, a: AccountCheck) -> Seq<ErrorText> {
    let field = item_field("accounts["@, i, "employer_match"@);
    match a.employer_match {
        None => Seq::empty(),
        Some(m) => one_if(
            a.plan_type != PlanType::EmployerPlan,
            field,
            about(a.name@, " isn't an employer plan, so it can't have an employer match."@),
        ) + one_if(m.tiers@.len() == 0, field, about(a.name@, " has a match with no tiers."@)) + (
        match m.covers_over_whole {
            Some(p) => seq![
                (
                    field,
                    about(
                        a.name@,
                        " matches on "@ + p@
                            + "% of salary in total — the tiers can't add up to more than 100%."@,
                    ),
                ),
            ],
            None => Seq::empty(),
        }) + tier_errors(field, a.name@, m.tiers@, m.tiers@.len() as int),
    }
}

/// The errors account `i` gets before its contribution rules: a duplicate
/// id, an owner who is not on the plan, a negative balance, and a kind and
/// bucket that disagree.
pub open spec fn account_head_errors(people: Seq<Person>, accounts: Seq<AccountCheck>, i: int) -> Seq<
    ErrorText,
> {
    let a = accounts[i];
    one_if(
        account_repeats(accounts, i),
        item_field("accounts["@, i, "id"@),
        "Duplicate account id \""@ + a.id@ + "\"."@,
    ) + one_if(
        !knows(people, a.owner@),
        item_field("accounts["@, i, "owner"@),
        about(a.name@, " has no owner — pick one of the people on this plan."@),
    ) + one_if(
        a.negative_balance,
        item_field("accounts["@, i, "balance"@),
        about(a.name@, " balance can't be negative."@),
    ) + plan_type_errors(i, a)
}

/// The errors account `i` gets, in the order they are checked: those of
/// [`account_head_errors`], each contribution rule's, and the employer
/// match's.
pub open spec fn account_errors(people: Seq<Person>, accounts: Seq<AccountCheck>, i: int) -> Seq<
    ErrorText,
> {
    let a = accounts[i];
    account_head_errors(people, accounts, i) + contribution_errors(i, a, a.contributions@.len() as int)
        + match_errors(i, a)
}

/// The errors of the first `n` accounts.
pub open spec fn accounts_errors(people: Seq<Person>, accounts: Seq<AccountCheck>, n: int) -> Seq<
    ErrorText,
>
    decreases n,
{
    if n <= 0 {
        Seq::empty()
    } else {
        accounts_errors(people, accounts, n - 1) + account_errors(people, accounts, n - 1)
    }
}

fn account_repeats_exec(accounts: &Vec<AccountCheck>, i: usize) -> (r: bool)
    requires
        i < accounts@.len(),
    ensures
        r == account_repeats(accounts@, i as int),
{
    let mut j: usize = 0;
    while j < i
        invariant
            j <= i < accounts@.len(),
            forall|k: int| 0 <= k < j ==> (#[trigger] accounts@[k]).id@ != accounts@[i as int].id@,
        decreases i - j,
    {
        if accounts[j].id == accounts[i].id {
            return true;
        }
        j = j + 1;
    }
    false
}

fn check_contribution(
    errors: &mut Vec<ValidationError>,
    i: usize,
    a: &AccountCheck,
    c: &ContributionCheck,
)
    requires
        i <= i64::MAX,
    ensures
        texts(final(errors)@) == texts(old(errors)@) + contribution_error(i as int, *a, *c),
{
    let ghost before = texts(errors@);
    match c {
        ContributionCheck::FlatAmount { negative } => {
            if *negative {
                push_error(
                    errors,
                    field_for("accounts[", i, "contribution"),
                    about_text(&a.name, " can't contribute a negative amount."),
                );
            }
        },
        ContributionCheck::PercentOfSalary { in_range, percent, cap_below_start } => {
            if !*in_range {
                let mut rest = crate::text::text(" contributes ");
                push_str(&mut rest, percent.as_str());
                push_str(&mut rest, "% of salary — it has to be between 0% and 100%.");
                push_error(
                    errors,
                    field_for("accounts[", i, "contribution"),
                    about_text(&a.name, rest.as_str()),
                );
            }
            if *cap_below_start {
                push_error(
                    errors,
                    field_for("accounts[", i, "contribution"),
                    about_text(
                        &a.name,
                        " steps up to a cap below its starting percentage — the cap has to be at or above it.",
                    ),
                );
            }
        },
        ContributionCheck::FederalMaximum => {
            if a.plan_type == PlanType::Uncapped {
                push_error(
                    errors,
                    field_for("accounts[", i, "contribution"),
                    about_text(&a.name, " has no federal maximum — a taxable brokerage is uncapped."),
                );
            }
        },
    }
    proof {
        assert(texts(errors@) =~= before + contribution_error(i as int, *a, *c));
    }
}

fn check_tier(errors: &mut Vec<ValidationError>, field: &String, name: &String, t: &TierCheck)
    ensures
        texts(final(errors)@) == texts(old(errors)@) + tier_error(field@, name@, *t),
{
    let ghost before = texts(errors@);
    match &t.width_out_of_range {
        Some(p) => {
            let mut rest = crate::text::text(" has a match tier covering ");
            push_str(&mut rest, p.as_str());
            push_str(&mut rest, "% of salary — it has to be above 0% and at most 100%.");
            push_error(errors, field.clone(), about_text(name, rest.as_str()));
        },
        None => {},
    }
    if t.negative_rate {
        push_error(errors, field.clone(), about_text(name, " has a match tier paying a negative rate."));
    }
    proof {
        assert(texts(errors@) =~= before + tier_error(field@, name@, *t));
    }
}

fn check_match(errors: &mut Vec<ValidationError>, i: usize, a: &AccountCheck)
    requires
        i <= i64::MAX,
    ensures
        texts(final(errors)@) == texts(old(errors)@) + match_errors(i as int, *a),
{
    let ghost before = texts(errors@);
    match &a.employer_match {
        None => {
            proof {
                assert(texts(errors@) =~= before + match_errors(i as int, *a));
            }
        },
        Some(m) => {
            let field = field_for("accounts[", i, "employer_match");
            if a.plan_type != PlanType::EmployerPlan {
                push_error(
                    errors,
                    field.clone(),
                    about_text(&a.name, " isn't an employer plan, so it can't have an employer match."),
                );
            }
            if m.tiers.len() == 0 {
                push_error(errors, field.clone(), about_text(&a.name, " has a match with no tiers."));
            }
            match &m.covers_over_whole {
                Some(p) => {
                    let mut rest = crate::text::text(" matches on ");
                    push_str(&mut rest, p.as_str());
                    push_str(
                        &mut rest,
                        "% of salary in total — the tiers can't add up to more than 100%.",
                    );
                    push_error(errors, field.clone(), about_text(&a.name, rest.as_str()));
                },
                None => {},
            }
            let ghost head = texts(errors@);
            proof {
                let m0 = a.employer_match->Some_0;
                assert(head =~= before + one_if(
                    a.plan_type != PlanType::EmployerPlan,
                    field@,
                    about(a.name@, " isn't an employer plan, so it can't have an employer match."@),
                ) + one_if(m0.tiers@.len() == 0, field@, about(a.name@, " has a match with no tiers."@))
                    + (match m0.covers_over_whole {
                    Some(p) => seq![
                        (
                            field@,
                            about(
                                a.name@,
                                " matches on "@ + p@
                                    + "% of salary in total — the tiers can't add up to more than 100%."@,
                            ),
                        ),
                    ],
                    None => Seq::empty(),
                }));
            }
            let mut k: usize = 0;
            while k < m.tiers.len()
                invariant
                    k <= m.tiers@.len(),
                    texts(errors@) == head + tier_errors(field@, a.name@, m.tiers@, k as int),
                decreases m.tiers@.len() - k,
            {
                check_tier(errors, &field, &a.name, &m.tiers[k]);
                proof {
                    assert(texts(errors@) =~= head + tier_errors(
                        field@,
                        a.name@,
                        m.tiers@,
                        k + 1,
                    ));
                }
                k = k + 1;
            }
            proof {
                assert(texts(errors@) =~= before + match_errors(i as int, *a));
            }
        },
    }
}

fn check_account_head(
    errors: &mut Vec<ValidationError>,
    people: &Vec<Person>,
    accounts: &Vec<AccountCheck>,
    i: usize,
)
    requires
        i < accounts@.len() <= i64::MAX,
    ensures
        texts(final(errors)@) == texts(old(errors)@) + account_head_errors(people@, accounts@, i as int),
{
    let a = &accounts[i];
    let ghost before = texts(errors@);
    if account_repeats_exec(accounts, i) {
        let mut message = crate::text::text("Duplicate account id \"");
        push_str(&mut message, a.id.as_str());
        push_str(&mut message, "\".");
        push_error(errors, field_for("accounts[", i, "id"), message);
    }
    let ghost step1 = texts(errors@);
    if !knows_person(people, &a.owner) {
        push_error(
            errors,
            field_for("accounts[", i, "owner"),
            about_text(&a.name, " has no owner — pick one of the people on this plan."),
        );
    }
    let ghost step2 = texts(errors@);
    if a.negative_balance {
        push_error(
            errors,
            field_for("accounts[", i, "balance"),
            about_text(&a.name, " balance can't be negative."),
        );
    }
    let ghost step3 = texts(errors@);
    let taxable = a.kind == AccountKind::Taxable;
    if taxable != (a.plan_type == PlanType::Uncapped) {
        let message = if taxable {
            about_text(&a.name, " is a taxable brokerage, so it isn't a 401(k) or an IRA.")
        } else {
            about_text(&a.name, " is a retirement account, so it needs a plan type.")
        };
        push_error(errors, field_for("accounts[", i, "plan_type"), message);
    }
    proof {
        assert(step1 =~= before + one_if(
            account_repeats(accounts@, i as int),
            item_field("accounts["@, i as int, "id"@),
            "Duplicate account id \""@ + a.id@ + "\"."@,
        ));
        assert(step2 =~= step1 + one_if(
            !knows(people@, a.owner@),
            item_field("accounts["@, i as int, "owner"@),
            about(a.name@, " has no owner — pick one of the people on this plan."@),
        ));
        assert(step3 =~= step2 + one_if(
            a.negative_balance,
            item_field("accounts["@, i as int, "balance"@),
            about(a.name@, " balance can't be negative."@),
        ));
        assert(texts(errors@) =~= step3 + plan_type_errors(i as int, *a));
        assert(texts(errors@) =~= before + account_head_errors(people@, accounts@, i as int));
    }
}

/// Appends account `i`'s errors.
fn check_account(
    errors: &mut Vec<ValidationError>,
    people: &Vec<Person>,
    accounts: &Vec<AccountCheck>,
    i: usize,
)
    requires
        i < accounts@.len() <= i64::MAX,
    ensures
        texts(final(errors)@) == texts(old(errors)@) + account_errors(people@, accounts@, i as int),
{
    let a = &accounts[i];
    let ghost before = texts(errors@);
    check_account_head(errors, people, accounts, i);
    let ghost head = texts(errors@);
    let mut k: usize = 0;
    while k < a.contributions.len()
        invariant
            k <= a.contributions@.len(),
            i <= i64::MAX,
            texts(errors@) == head + contribution_errors(i as int, *a, k as int),
        decreases a.contributions@.len() - k,
    {
        check_contribution(errors, i, a, &a.contributions[k]);
        proof {
            assert(texts(errors@) =~= head + contribution_errors(i as int, *a, k + 1));
        }
        k = k + 1;
    }
    let ghost mid = texts(errors@);
    check_match(errors, i, a);
    proof {
        assert(texts(errors@) =~= before + account_errors(people@, accounts@, i as int));
    }
}

/// Appends every account's errors, in plan order.
pub fn check_accounts(
    errors: &mut Vec<ValidationError>,
    people: &Vec<Person>,
    accounts: &Vec<AccountCheck>,
)
    requires
        accounts@.len() <= i64::MAX,
    ensures
        texts(final(errors)@) == texts(old(errors)@) + accounts_errors(
            people@,
            accounts@,
            accounts@.len() as int,
        ),
{
    let ghost before = texts(errors@);
    let mut i: usize = 0;
    proof {
        assert(texts(errors@) =~= before + accounts_errors(people@, accounts@, 0));
    }
    while i < accounts.len()
        invariant
            i <= accounts@.len() <= i64::MAX,
            texts(errors@) == before + accounts_errors(people@, accounts@, i as int),
        decreases accounts@.len() - i,
    {
        check_account(errors, people, accounts, i);
        proof {
            assert(texts(errors@) =~= before + accounts_errors(people@, accounts@, i + 1));
        }
        i = i + 1;
    }
}

/// The federal maximum is refused only where there is no maximum: a
/// `FederalMaximum` rule gets an error, on the account's contribution,
/// exactly when the account's bucket is uncapped, and none for any capped
/// bucket.
pub proof fn lemma_federal_maximum_needs_a_cap(i: int, a: AccountCheck)
    ensures
        a.plan_type != PlanType::Uncapped ==> contribution_error(
            i,
            a,
            ContributionCheck::FederalMaximum,
        ).len() == 0,
        a.plan_type == PlanType::Uncapped ==> {
            let e = contribution_error(i, a, ContributionCheck::FederalMaximum);
            &&& e.len() == 1
            &&& e[0].0 == item_field("accounts["@, i, "contribution"@)
        },
{
}

/// A contribution rule is refused only for what is wrong with it: a flat
/// amount only when it is negative, and a share of salary only when it is
/// outside 0%..=100% or steps up to a cap below where it starts (one error
/// for each); every error lands on the account's contribution.
pub proof fn lemma_contribution_errors_name_real_problems(i: int, a: AccountCheck, c: ContributionCheck)
    ensures
        c matches ContributionCheck::FlatAmount { negative } ==> contribution_error(i, a, c).len()
            == if negative {
            1int
        } else {
            0int
        },
        c matches ContributionCheck::PercentOfSalary { in_range, cap_below_start, .. }
            ==> contribution_error(i, a, c).len() == (if in_range {
            0int
        } else {
            1int
        }) + (if cap_below_start {
            1int
        } else {
            0int
        }),
        forall|k: int|
            0 <= k < contribution_error(i, a, c).len() ==> (#[trigger] contribution_error(
                i,
                a,
                c,
            )[k]).0 == item_field("accounts["@, i, "contribution"@),
{
}

} // verus!
