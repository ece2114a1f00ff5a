//! The reinvestment and drawdown sections of a plan's validation: where
//! reinvested cash lands, and what each drawdown phase starts at and draws
//! from, must all be in the plan.
use vstd::prelude::*;

use crate::account::{is_reinvest_target, AccountId, AccountKind};
use crate::person::{Person, PersonId};
use crate::phased::{PhaseSpec, PhaseStart, StackSource};
use crate::stream::StreamBoundary;
use crate::text::text;
use crate::validation::{
    about, about_text, field_for, item_field, knows, knows_person, push_error, texts, ErrorText,
    ValidationError,
};
use crate::validation_accounts::{one_if, AccountCheck};

verus! {

/// Some account in `accounts` has the id `id`.
pub open spec fn has_account(accounts: Seq<AccountCheck>, id: Seq<char>) -> bool {
    exists|j: int| 0 <= j < accounts.len() && (#[trigger] accounts[j]).id@ == id
}

/// Some account with the id `id` can receive reinvested cash.
pub open spec fn has_target(accounts: Seq<AccountCheck>, id: Seq<char>) -> bool {
    exists|j: int|
        0 <= j < accounts.len() && (#[trigger] accounts[j]).id@ == id && (accounts[j].kind
            == AccountKind::Taxable || accounts[j].kind == AccountKind::Savings)
}

/// The error of a reinvestment destination: none when it is unset or names
/// a taxable or savings account, else one that says whether it names no
/// account or only accounts of another kind.
pub open spec fn reinvest_errors(accounts: Seq<AccountCheck>, reinvest_into: Option<AccountId>) -> Seq<
    ErrorText,
> {
    match reinvest_into {
        None => Seq::empty(),
        Some(id) => if has_target(accounts, id@) {
            Seq::empty()
        } else if has_account(accounts, id@) {
            seq![
                (
                    "assumptions.reinvest_into"@,
                    about(
                        id@,
                        " can't receive reinvested cash — only a taxable or savings account can."@,
                    ),
                ),
            ]
        } else {
            seq![("assumptions.reinvest_into"@, about(id@, " isn't an account on this plan."@))]
        },
    }
}

/// The person a phase's start is measured from, if it is measured from
/// one.
pub open spec fn start_person(start: PhaseStart) -> Option<PersonId> {
    match start {
        PhaseStart::PenaltyFree(p) => Some(p),
        PhaseStart::Boundary(b) => match b {
            StreamBoundary::AtRetirement(p) => Some(p),
            StreamBoundary::AtDeath(p) => Some(p),
            StreamBoundary::AtAge(p, _) => Some(p),
            _ => None,
        },
    }
}

/// The errors of the first `k` entries of phase `i`'s stack: one for each
/// entry naming an account the plan does not have.
pub open spec fn stack_errors(accounts: Seq<AccountCheck>, i: int, stack: Seq<StackSource>, k: int) -> Seq<
    ErrorText,
>
    decreases k,
{
    if k <= 0 {
        Seq::empty()
    } else {
        stack_errors(accounts, i, stack, k - 1) + match stack[k - 1] {
            StackSource::Account(id) => one_if(
                !has_account(accounts, id@),
                item_field(item_field("assumptions.drawdown.phases["@, i, "stack["@), k - 1, "source"@),
                about(id@, " isn't an account on this plan."@),
            ),
            StackSource::Kind(_) => Seq::empty(),
        }
    }
}

/// The errors of phase `i`: a start measured from someone not on the
/// plan, then each stack entry naming a missing account.
pub open spec fn phase_errors(
    people: Seq<Person>,
    accounts: Seq<AccountCheck>,
    i: int,
    phase: PhaseSpec,
) -> Seq<ErrorText> {
    (match start_person(phase.start) {
        Some(p) => one_if(
            !knows(people, p@),
            item_field("assumptions.drawdown.phases["@, i, "start"@),
            about(p@, " isn't a person on this plan."@),
        ),
        None => Seq::empty(),
    }) + stack_errors(accounts, i, phase.stack@, phase.stack@.len() as int)
}

/// The errors of the first `k` phases.
pub open spec fn phases_errors(
    people: Seq<Person>,
    accounts: Seq<AccountCheck>,
    phases: Seq<PhaseSpec>,
    k: int,
) -> Seq<ErrorText>
    decreases k,
{
    if k <= 0 {
        Seq::empty()
    } else {
        phases_errors(people, accounts, phases, k - 1) + phase_errors(
            people,
            accounts,
            k - 1,
            phases[k - 1],
        )
    }
}

/// Whether an account has the id `id`, and whether one with it can
/// receive reinvested cash.
fn find_account(accounts: &Vec<AccountCheck>, id: &String) -> (r: (bool, bool))
    ensures
        r.0 == has_account(accounts@, id@),
        r.1 == has_target(accounts@, id@),
{
    let mut named = false;
    let mut target = false;
    let mut j: usize = 0;
    while j < accounts.len()
        invariant
            j <= accounts@.len(),
            named == exists|k: int| 0 <= k < j && (#[trigger] accounts@[k]).id@ == id@,
            target == exists|k: int|
                0 <= k < j && (#[trigger] accounts@[k]).id@ == id@ && (accounts@[k].kind
                    == AccountKind::Taxable || accounts@[k].kind == AccountKind::Savings),
        decreases accounts@.len() - j,
    {
        if accounts[j].id == *id {
            named = true;
            if is_reinvest_target(accounts[j].kind) {
                target = true;
            }
        }
        j = j + 1;
    }
    (named, target)
}

/// Appends the reinvestment destination's error.
pub fn check_reinvest(
    errors: &mut Vec<ValidationError>,
    accounts: &Vec<AccountCheck>,
    reinvest_into: &Option<AccountId>,
)
    ensures
        texts(final(errors)@) == texts(old(errors)@) + reinvest_errors(accounts@, *reinvest_into),
{
    let ghost before = texts(errors@);
    if let Some(id) = reinvest_into {
        let (named, target) = find_account(accounts, id);
        if !target {
            if named {
                push_error(
                    errors,
                    text("assumptions.reinvest_into"),
                    about_text(
                        id,
                        " can't receive reinvested cash — only a taxable or savings account can.",
                    ),
                );
            } else {
                push_error(
                    errors,
                    text("assumptions.reinvest_into"),
                    about_text(id, " isn't an account on this plan."),
                );
            }
        }
    }
    proof {
        assert(texts(errors@) =~= before + reinvest_errors(accounts@, *reinvest_into));
    }
}

/// The person `start` is measured from, if it is measured from one.
fn start_person_of(start: &PhaseStart) -> (r: Option<&PersonId>)
    ensures
        match r {
            Some(p) => start_person(*start) == Some(*p),
            None => start_person(*start) is None,
        },
{
    match start {
        PhaseStart::PenaltyFree(p) => Some(p),
        PhaseStart::Boundary(b) => match b {
            StreamBoundary::AtRetirement(p) => Some(p),
            StreamBoundary::AtDeath(p) => Some(p),
            StreamBoundary::AtAge(p, _) => Some(p),
            _ => None,
        },
    }
}

/// Appends the errors of phase `i`.
fn check_phase(
    errors: &mut Vec<ValidationError>,
    people: &Vec<Person>,
    accounts: &Vec<AccountCheck>,
    i: usize,
    phase: &PhaseSpec,
)
    requires
        i <= i64::MAX,
        phase.stack@.len() <= i64::MAX,
    ensures
        texts(final(errors)@) == texts(old(errors)@) + phase_errors(
            people@,
            accounts@,
            i as int,
            *phase,
        ),
{
    let ghost before = texts(errors@);
    if let Some(p) = start_person_of(&phase.start) {
        if !knows_person(people, p) {
            push_error(
                errors,
                field_for("assumptions.drawdown.phases[", i, "start"),
                about_text(p, " isn't a person on this plan."),
            );
        }
    }
    let ghost head = texts(errors@);
    proof {
        assert(head =~= before + match start_person(phase.start) {
            Some(p) => one_if(
                !knows(people@, p@),
                item_field("assumptions.drawdown.phases["@, i as int, "start"@),
                about(p@, " isn't a person on this plan."@),
            ),
            None => Seq::empty(),
        });
    }
    let n = phase.stack.len();
    let mut k: usize = 0;
    proof {
        assert(texts(errors@) =~= head + stack_errors(accounts@, i as int, phase.stack@, 0));
    }
    while k < n
        invariant
            n == phase.stack@.len() <= i64::MAX,
            i <= i64::MAX,
            k <= n,
            texts(errors@) == head + stack_errors(accounts@, i as int, phase.stack@, k as int),
        decreases n - k,
    {
        match &phase.stack[k] {
            StackSource::Account(id) => {
                let (named, _) = find_account(accounts, id);
                if !named {
                    let prefix = field_for("assumptions.drawdown.phases[", i, "stack[");
                    push_error(
                        errors,
                        field_for(prefix.as_str(), k, "source"),
                        about_text(id, " isn't an account on this plan."),
                    );
                }
            },
            StackSource::Kind(_) => {},
        }
        proof {
            assert(texts(errors@) =~= head + stack_errors(
                accounts@,
                i as int,
                phase.stack@,
                k + 1,
            ));
        }
        k = k + 1;
    }
}

/// Appends the errors of every drawdown phase.
pub fn check_phases(
    errors: &mut Vec<ValidationError>,
    people: &Vec<Person>,
    accounts: &Vec<AccountCheck>,
    phases: &Vec<PhaseSpec>,
)
    requires
        phases@.len() <= i64::MAX,
        forall|i: int| 0 <= i < phases@.len() ==> (#[trigger] phases@[i]).stack@.len() <= i64::MAX,
    ensures
        texts(final(errors)@) == texts(old(errors)@) + phases_errors(
            people@,
            accounts@,
            phases@,
            phases@.len() as int,
        ),
{
    let ghost head = texts(errors@);
    let n = phases.len();
    let mut i: usize = 0;
    proof {
        assert(texts(errors@) =~= head + phases_errors(people@, accounts@, phases@, 0));
    }
    while i < n
        invariant
            n == phases@.len() <= i64::MAX,
            forall|j: int| 0 <= j < phases@.len() ==> (#[trigger] phases@[j]).stack@.len() <= i64::MAX,
            i <= n,
            texts(errors@) == head + phases_errors(people@, accounts@, phases@, i as int),
        decreases n - i,
    {
        check_phase(errors, people, accounts, i, &phases[i]);
        proof {
            assert(texts(errors@) =~= head + phases_errors(people@, accounts@, phases@, i + 1));
        }
        i = i + 1;
    }
}

} // verus!
