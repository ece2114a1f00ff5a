//! The Social Security section of a plan's validation.
use vstd::prelude::*;

use crate::person::{Person, PersonId};
use crate::social_security::FullRetirementAge;
use crate::text::{push_str, text};
use crate::validation::{
    claiming_age_out_of_range, field_for, full_retirement_age_out_of_range, item_field, knows,
    knows_person, push_error, texts, ErrorText, ValidationError,
};
use crate::validation_accounts::one_if;

verus! {

/// What validation reads of a Social Security benefit.
#[derive(Clone, Debug)]
pub struct BenefitCheck {
    pub id: String,
    pub owner: PersonId,
    pub claiming_age: u8,
    /// The full retirement age the plan states, if it overrides SSA's.
    pub full_retirement_age: Option<FullRetirementAge>,
    /// The benefit at full retirement age is below zero.
    pub negative_benefit: bool,
    /// The benefit's own COLA, if it has one, is -100% or lower.
    pub cola_override_too_low: bool,
}

/// `benefits[i]` shares its id with a benefit listed before it.
pub open spec fn benefit_repeats(benefits: Seq<BenefitCheck>, i: int) -> bool {
    exists|j: int| 0 <= j < i && (#[trigger] benefits[j]).id@ == benefits[i].id@
}

/// The errors of benefit `i`'s identity: a duplicate id, an owner who is
/// not on the plan.
pub open spec fn benefit_identity_errors(people: Seq<Person>, benefits: Seq<BenefitCheck>, i: int) -> Seq<
    ErrorText,
> {
    let b = benefits[i];
    one_if(
        benefit_repeats(benefits, i),
        item_field("social_security["@, i, "id"@),
        "Duplicate Social Security benefit id \""@ + b.id@ + "\"."@,
    ) + one_if(
        !knows(people, b.owner@),
        item_field("social_security["@, i, "owner"@),
        "This benefit has no owner — pick one of the people on this plan."@,
    )
}

/// The errors of benefit `i`'s terms: a claiming age outside 62..=70, a
/// stated full retirement age outside 60..=70 years, a negative benefit,
/// and a COLA override of -100% or lower.
pub open spec fn benefit_terms_errors(i: int, b: BenefitCheck) -> Seq<ErrorText> {
    one_if(
        !(62 <= b.claiming_age <= 70),
        item_field("social_security["@, i, "claiming_age"@),
        "Claiming age must be between 62 and 70."@,
    ) + one_if(
        b.full_retirement_age matches Some(fra) && !(60 <= fra.years <= 70),
        item_field("social_security["@, i, "full_retirement_age"@),
        "Full retirement age must be between 60 and 70."@,
    ) + one_if(
        b.negative_benefit,
        item_field("social_security["@, i, "benefit_at_fra"@),
        "Benefit at full retirement age can't be negative."@,
    ) + one_if(
        b.cola_override_too_low,
        item_field("social_security["@, i, "cola_override"@),
        "COLA override can't be -100% or lower."@,
    )
}

/// The errors benefit `i` gets, in the order they are checked: those of
/// its identity, then those of its terms.
pub open spec fn benefit_errors(people: Seq<Person>, benefits: Seq<BenefitCheck>, i: int) -> Seq<
    ErrorText,
> {
    benefit_identity_errors(people, benefits, i) + benefit_terms_errors(i, benefits[i])
}

/// The errors of the first `n` benefits.
pub open spec fn benefits_errors(people: Seq<Person>, benefits: Seq<BenefitCheck>, n: int) -> Seq<
    ErrorText,
>
    decreases n,
{
    if n <= 0 {
        Seq::empty()
    } else {
        benefits_errors(people, benefits, n - 1) + benefit_errors(people, benefits, n - 1)
    }
}

fn benefit_repeats_exec(benefits: &Vec<BenefitCheck>, i: usize) -> (r: bool)
    requires
        i < benefits@.len(),
    ensures
        r == benefit_repeats(benefits@, i as int),
{
    let mut j: usize = 0;
    while j < i
        invariant
            j <= i < benefits@.len(),
            forall|k: int| 0 <= k < j ==> (#[trigger] benefits@[k]).id@ != benefits@[i as int].id@,
        decreases i - j,
    {
        if benefits[j].id == benefits[i].id {
            return true;
        }
        j = j + 1;
    }
    false
}

fn check_benefit_identity(
    errors: &mut Vec<ValidationError>,
    people: &Vec<Person>,
    benefits: &Vec<BenefitCheck>,
    i: usize,
)
    requires
        i < benefits@.len() <= i64::MAX,
    ensures
        texts(final(errors)@) == texts(old(errors)@) + benefit_identity_errors(
            people@,
            benefits@,
            i as int,
        ),
{
    let b = &benefits[i];
    let ghost s0 = texts(errors@);
    if benefit_repeats_exec(benefits, i) {
        let mut message = text("Duplicate Social Security benefit id \"");
        push_str(&mut message, b.id.as_str());
        push_str(&mut message, "\".");
        push_error(errors, field_for("social_security[", i, "id"), message);
    }
    let ghost s1 = texts(errors@);
    if !knows_person(people, &b.owner) {
        push_error(
            errors,
            field_for("social_security[", i, "owner"),
            text("This benefit has no owner — pick one of the people on this plan."),
        );
    }
    proof {
        assert(s1 =~= s0 + one_if(
            benefit_repeats(benefits@, i as int),
            item_field("social_security["@, i as int, "id"@),
            "Duplicate Social Security benefit id \""@ + b.id@ + "\"."@,
        ));
        assert(texts(errors@) =~= s0 + benefit_identity_errors(people@, benefits@, i as int));
    }
}

fn check_benefit_terms(errors: &mut Vec<ValidationError>, i: usize, b: &BenefitCheck)
    requires
        i <= i64::MAX,
    ensures
        texts(final(errors)@) == texts(old(errors)@) + benefit_terms_errors(i as int, *b),
{
    let ghost s2 = texts(errors@);
    if claiming_age_out_of_range(b.claiming_age) {
        push_error(
            errors,
            field_for("social_security[", i, "claiming_age"),
            text("Claiming age must be between 62 and 70."),
        );
    }
    let ghost s3 = texts(errors@);
    let stated_out_of_range = match b.full_retirement_age {
        Some(fra) => full_retirement_age_out_of_range(fra.years),
        None => false,
    };
    if stated_out_of_range {
        push_error(
            errors,
            field_for("social_security[", i, "full_retirement_age"),
            text("Full retirement age must be between 60 and 70."),
        );
    }
    let ghost s4 = texts(errors@);
    if b.negative_benefit {
        push_error(
            errors,
            field_for("social_security[", i, "benefit_at_fra"),
            text("Benefit at full retirement age can't be negative."),
        );
    }
    let ghost s5 = texts(errors@);
    if b.cola_override_too_low {
        push_error(
            errors,
            field_for("social_security[", i, "cola_override"),
            text("COLA override can't be -100% or lower."),
        );
    }
    proof {
        assert(s3 =~= s2 + one_if(
            !(62 <= b.claiming_age <= 70),
            item_field("social_security["@, i as int, "claiming_age"@),
            "Claiming age must be between 62 and 70."@,
        ));
        assert(s4 =~= s3 + one_if(
            b.full_retirement_age matches Some(fra) && !(60 <= fra.years <= 70),
            item_field("social_security["@, i as int, "full_retirement_age"@),
            "Full retirement age must be between 60 and 70."@,
        ));
        assert(s5 =~= s4 + one_if(
            b.negative_benefit,
            item_field("social_security["@, i as int, "benefit_at_fra"@),
            "Benefit at full retirement age can't be negative."@,
        ));
        assert(texts(errors@) =~= s2 + benefit_terms_errors(i as int, *b));
    }
}

/// Appends benefit `i`'s errors.
fn check_benefit(
    errors: &mut Vec<ValidationError>,
    people: &Vec<Person>,
    benefits: &Vec<BenefitCheck>,
    i: usize,
)
    requires
        i < benefits@.len() <= i64::MAX,
    ensures
        texts(final(errors)@) == texts(old(errors)@) + benefit_errors(people@, benefits@, i as int),
{
    let ghost s0 = texts(errors@);
    check_benefit_identity(errors, people, benefits, i);
    check_benefit_terms(errors, i, &benefits[i]);
    proof {
        assert(texts(errors@) =~= s0 + benefit_errors(people@, benefits@, i as int));
    }
}

/// Appends every benefit's errors, in plan order.
pub fn check_benefits(
    errors: &mut Vec<ValidationError>,
    people: &Vec<Person>,
    benefits: &Vec<BenefitCheck>,
)
    requires
        benefits@.len() <= i64::MAX,
    ensures
        texts(final(errors)@) == texts(old(errors)@) + benefits_errors(
            people@,
            benefits@,
            benefits@.len() as int,
        ),
{
    let ghost before = texts(errors@);
    let mut i: usize = 0;
    proof {
        assert(texts(errors@) =~= before + benefits_errors(people@, benefits@, 0));
    }
    while i < benefits.len()
        invariant
            i <= benefits@.len() <= i64::MAX,
            texts(errors@) == before + benefits_errors(people@, benefits@, i as int),
        decreases benefits@.len() - i,
    {
        check_benefit(errors, people, benefits, i);
        proof {
            assert(texts(errors@) =~= before + benefits_errors(people@, benefits@, i + 1));
        }
        i = i + 1;
    }
}

} // verus!
