//! Structural and range checks a plan must pass before it is simulated or
//! saved — only conditions that would crash, produce nonsense, or corrupt
//! storage, each reported as a field path and a sentence for the user.
use vstd::prelude::*;

use crate::account::AccountId;
use crate::person::Person;
use crate::phased::PhaseSpec;
use crate::plan::SimConfig;
use crate::text::{decimal, push_decimal, push_str, text};
use crate::validation_accounts::{accounts_errors, check_accounts, AccountCheck};
use crate::validation_assumptions::{
    assumptions_errors, check_assumptions, check_state_tax, state_tax_errors, AssumptionsCheck,
    StateTaxCheck,
};
use crate::validation_drawdown::{check_phases, check_reinvest, phases_errors, reinvest_errors};
use crate::validation_benefits::{benefits_errors, check_benefits, BenefitCheck};
use crate::validation_streams::{check_streams, streams_errors, StreamCheck};
use crate::year_month::YearMonth;

verus! {

/// Earliest year any plan date may fall in.
pub const MIN_YEAR: i32 = 1900;

/// Latest year any plan date may fall in.
pub const MAX_YEAR: i32 = 2200;

/// One reason a plan cannot be simulated or saved. `field` is a stable,
/// dotted path (e.g. `accounts[1].owner`) the editor can highlight;
/// `message` is shown to the user as is.
#[derive(Clone, Debug, PartialEq)]
pub struct ValidationError {
    pub field: String,
    pub message: String,
}

/// An error as text: (field, message).
pub type ErrorText = (Seq<char>, Seq<char>);

/// The errors' texts, in order.
pub open spec fn texts(errors: Seq<ValidationError>) -> Seq<ErrorText> {
    errors.map_values(|e: ValidationError| (e.field@, e.message@))
}

/// The errors a date gets: a month outside 1..=12, and a year outside
/// [MIN_YEAR, MAX_YEAR].
pub open spec fn date_errors(field: Seq<char>, label: Seq<char>, date: YearMonth) -> Seq<ErrorText> {
    (if 1 <= date.month <= 12 {
        Seq::empty()
    } else {
        seq![(field, label + " has an invalid month ("@ + decimal(date.month as int) + ")."@)]
    }) + (if MIN_YEAR <= date.year <= MAX_YEAR {
        Seq::empty()
    } else {
        seq![
            (
                field,
                label + " must be between 1900 and 2200 (got "@ + decimal(date.year as int)
                    + ")."@,
            ),
        ]
    })
}

fn error(field: String, message: String) -> (r: ValidationError)
    ensures
        r.field@ == field@,
        r.message@ == message@,
{
    ValidationError { field, message }
}

/// Appends one error.
pub(crate) fn push_error(errors: &mut Vec<ValidationError>, field: String, message: String)
    ensures
        texts(final(errors)@) == texts(old(errors)@).push((field@, message@)),
{
    let e = error(field, message);
    proof {
        lemma_texts_push(errors@, e);
    }
    errors.push(e);
}

/// The path of field `leaf` of item `i` of a list: `{list}{i}].{leaf}`,
/// where `list` already ends in the opening bracket (`accounts[`).
pub open spec fn item_field(list: Seq<char>, i: int, leaf: Seq<char>) -> Seq<char> {
    list + decimal(i) + "]."@ + leaf
}

/// A message about a named thing: its name in double quotes, then `rest`.
pub open spec fn about(name: Seq<char>, rest: Seq<char>) -> Seq<char> {
    "\""@ + name + "\""@ + rest
}

/// The text of [`about`].
pub(crate) fn about_text(name: &String, rest: &str) -> (r: String)
    ensures
        r@ == about(name@, rest@),
{
    let mut m = text("\"");
    push_str(&mut m, name.as_str());
    push_str(&mut m, "\"");
    push_str(&mut m, rest);
    m
}

/// Whether someone in `people` has the id `id`.
pub open spec fn knows(people: Seq<Person>, id: Seq<char>) -> bool {
    exists|j: int| 0 <= j < people.len() && (#[trigger] people[j]).id@ == id
}

/// Whether someone in `people` has the id `id`.
pub fn knows_person(people: &Vec<Person>, id: &String) -> (r: bool)
    ensures
        r == knows(people@, id@),
{
    let mut j: usize = 0;
    while j < people.len()
        invariant
            j <= people@.len(),
            forall|k: int| 0 <= k < j ==> (#[trigger] people@[k]).id@ != id@,
        decreases people@.len() - j,
    {
        if people[j].id == *id {
            return true;
        }
        j = j + 1;
    }
    false
}

proof fn lemma_texts_push(errors: Seq<ValidationError>, e: ValidationError)
    ensures
        texts(errors.push(e)) == texts(errors).push((e.field@, e.message@)),
{
    assert(texts(errors.push(e)) =~= texts(errors).push((e.field@, e.message@)));
}

/// Checks a date, appending its errors to `errors`.
pub fn check_date(errors: &mut Vec<ValidationError>, field: &String, label: &String, date: YearMonth)
    ensures
        texts(final(errors)@) == texts(old(errors)@) + date_errors(field@, label@, date),
{
    let ghost start = texts(errors@);
    if !(1 <= date.month && date.month <= 12) {
        let mut message = label.clone();
        proof {
            reveal_strlit(" has an invalid month (");
            reveal_strlit(").");
        }
        push_str(&mut message, " has an invalid month (");
        push_decimal(&mut message, date.month as i64);
        push_str(&mut message, ").");
        let e = error(field.clone(), message);
        proof {
            lemma_texts_push(errors@, e);
        }
        errors.push(e);
    }
    let ghost middle = texts(errors@);
    if !(MIN_YEAR <= date.year && date.year <= MAX_YEAR) {
        let mut message = label.clone();
        proof {
            reveal_strlit(" must be between 1900 and 2200 (got ");
            reveal_strlit(").");
        }
        push_str(&mut message, " must be between 1900 and 2200 (got ");
        push_decimal(&mut message, date.year as i64);
        push_str(&mut message, ").");
        let e = error(field.clone(), message);
        proof {
            lemma_texts_push(errors@, e);
        }
        errors.push(e);
    }
    proof {
        assert(texts(errors@) =~= start + date_errors(field@, label@, date));
    }
}

/// `people[i]` shares its id with someone listed before it.
pub open spec fn repeats_id(people: Seq<Person>, i: int) -> bool {
    exists|j: int| 0 <= j < i && (#[trigger] people[j]).id@ == people[i].id@
}

/// `people[{i}].{leaf}`.
pub open spec fn person_field(i: int, leaf: Seq<char>) -> Seq<char> {
    "people["@ + decimal(i) + "]."@ + leaf
}

/// The errors person `i` gets, in the order they are checked.
pub open spec fn person_errors(people: Seq<Person>, i: int) -> Seq<ErrorText> {
    let p = people[i];
    (if repeats_id(people, i) {
        seq![(person_field(i, "id"@), "Duplicate person id \""@ + p.id@ + "\"."@)]
    } else {
        Seq::empty()
    }) + date_errors(person_field(i, "birth"@), p.name@ + "'s birth date"@, p.birth)
        + date_errors(person_field(i, "retirement"@), p.name@ + "'s retirement date"@, p.retirement)
        + (if p.retirement.index() <= p.birth.index() {
        seq![
            (
                person_field(i, "retirement"@),
                p.name@ + "'s retirement date must be after their birth date."@,
            ),
        ]
    } else {
        Seq::empty()
    })
}

/// The errors the first `n` people get.
pub open spec fn people_errors(people: Seq<Person>, n: int) -> Seq<ErrorText>
    decreases n,
{
    if n <= 0 {
        Seq::empty()
    } else {
        people_errors(people, n - 1) + person_errors(people, n - 1)
    }
}

/// The errors of the plan's start date and its people, in order: the start
/// date, a plan with no one in it, and then each person's duplicate id,
/// birth date, retirement date, and a retirement that is not after the
/// birth.
pub open spec fn spec_people_section(config: SimConfig, people: Seq<Person>) -> Seq<ErrorText> {
    date_errors("sim_config.start"@, "The plan start date"@, config.start) + (if people.len()
        == 0 {
        seq![("people"@, "A plan needs at least one person."@)]
    } else {
        Seq::empty()
    }) + people_errors(people, people.len() as int)
}

pub(crate) fn field_for(prefix: &str, i: usize, leaf: &str) -> (r: String)
    requires
        i <= i64::MAX,
    ensures
        r@ == item_field(prefix@, i as int, leaf@),
{
    let mut f = text(prefix);
    push_decimal(&mut f, i as i64);
    proof {
        reveal_strlit("].");
    }
    push_str(&mut f, "].");
    push_str(&mut f, leaf);
    f
}

fn repeats_id_exec(people: &Vec<Person>, i: usize) -> (r: bool)
    requires
        i < people@.len(),
    ensures
        r == repeats_id(people@, i as int),
{
    let mut j: usize = 0;
    while j < i
        invariant
            j <= i < people@.len(),
            forall|k: int| 0 <= k < j ==> (#[trigger] people@[k]).id@ != people@[i as int].id@,
        decreases i - j,
    {
        if people[j].id == people[i].id {
            return true;
        }
        j = j + 1;
    }
    false
}

/// Appends person `i`'s errors.
fn check_person(errors: &mut Vec<ValidationError>, people: &Vec<Person>, i: usize)
    requires
        i < people@.len() < i64::MAX,
    ensures
        texts(final(errors)@) == texts(old(errors)@) + person_errors(people@, i as int),
{
    let p = &people[i];
    let ghost before = texts(errors@);
    proof {
        reveal_strlit("people[");
        reveal_strlit("id");
        reveal_strlit("Duplicate person id \"");
        reveal_strlit("\".");
    }
    if repeats_id_exec(people, i) {
        let mut message = text("Duplicate person id \"");
        push_str(&mut message, p.id.as_str());
        push_str(&mut message, "\".");
        let e = error(field_for("people[", i, "id"), message);
        proof {
            lemma_texts_push(errors@, e);
            assert(person_field(i as int, "id"@) =~= "people["@ + decimal(i as int) + "]."@ + "id"@);
        }
        errors.push(e);
    }
    let ghost after_id = texts(errors@);
    check_person_dates(errors, people, i);
    let ghost after_dates = texts(errors@);
    proof {
        reveal_strlit("retirement");
        reveal_strlit("'s retirement date must be after their birth date.");
    }
    if p.retirement.month_index() <= p.birth.month_index() {
        let mut message = p.name.clone();
        push_str(&mut message, "'s retirement date must be after their birth date.");
        let e = error(field_for("people[", i, "retirement"), message);
        proof {
            lemma_texts_push(errors@, e);
            assert(person_field(i as int, "retirement"@) =~= "people["@ + decimal(i as int)
                + "]."@ + "retirement"@);
        }
        errors.push(e);
    }
    proof {
        assert(texts(errors@) =~= before + person_errors(people@, i as int));
    }
}

/// Appends the errors of person `i`'s birth and retirement dates.
fn check_person_dates(errors: &mut Vec<ValidationError>, people: &Vec<Person>, i: usize)
    requires
        i < people@.len() < i64::MAX,
    ensures
        texts(final(errors)@) == texts(old(errors)@) + date_errors(
            person_field(i as int, "birth"@),
            people@[i as int].name@ + "'s birth date"@,
            people@[i as int].birth,
        ) + date_errors(
            person_field(i as int, "retirement"@),
            people@[i as int].name@ + "'s retirement date"@,
            people@[i as int].retirement,
        ),
{
    let p = &people[i];
    proof {
        reveal_strlit("people[");
        reveal_strlit("birth");
        reveal_strlit("retirement");
        reveal_strlit("'s birth date");
        reveal_strlit("'s retirement date");
        assert(person_field(i as int, "birth"@) =~= "people["@ + decimal(i as int) + "]."@ + "birth"@);
        assert(person_field(i as int, "retirement"@) =~= "people["@ + decimal(i as int) + "]."@
            + "retirement"@);
    }
    let mut birth_label = p.name.clone();
    push_str(&mut birth_label, "'s birth date");
    check_date(errors, &field_for("people[", i, "birth"), &birth_label, p.birth);
    let mut retirement_label = p.name.clone();
    push_str(&mut retirement_label, "'s retirement date");
    check_date(errors, &field_for("people[", i, "retirement"), &retirement_label, p.retirement);
}

/// Validates the plan's start date and its people (see
/// `spec_people_section`).
pub fn validate_people(config: &SimConfig, people: &Vec<Person>) -> (r: Vec<ValidationError>)
    requires
        people@.len() < i64::MAX,
    ensures
        texts(r@) == spec_people_section(*config, people@),
{
    let mut errors: Vec<ValidationError> = Vec::new();
    proof {
        reveal_strlit("sim_config.start");
        reveal_strlit("The plan start date");
        reveal_strlit("people");
        reveal_strlit("A plan needs at least one person.");
        assert(texts(errors@) =~= Seq::<ErrorText>::empty());
    }
    check_date(&mut errors, &text("sim_config.start"), &text("The plan start date"), config.start);
    if people.len() == 0 {
        let e = error(text("people"), text("A plan needs at least one person."));
        proof {
            lemma_texts_push(errors@, e);
        }
        errors.push(e);
    }
    let ghost head = texts(errors@);
    proof {
        assert(head == date_errors("sim_config.start"@, "The plan start date"@, config.start) + (
        if people@.len() == 0 {
            seq![("people"@, "A plan needs at least one person."@)]
        } else {
            Seq::empty()
        }));
    }
    let mut i: usize = 0;
    while i < people.len()
        invariant
            i <= people@.len() < i64::MAX,
            texts(errors@) == head + people_errors(people@, i as int),
        decreases people@.len() - i,
    {
        check_person(&mut errors, people, i);
        proof {
            assert(people_errors(people@, i + 1) == people_errors(people@, i as int) + person_errors(
                people@,
                i as int,
            ));
            assert(texts(errors@) =~= head + people_errors(people@, i + 1));
        }
        i = i + 1;
    }
    errors
}

/// What validation reads of a plan: its calendar and people as they are,
/// of everything else what [`AccountCheck`], [`StreamCheck`],
/// [`BenefitCheck`], [`StateTaxCheck`] and [`AssumptionsCheck`] hold, and
/// the reinvestment destination and drawdown phases as they are (no phases
/// for a proportional drawdown).
#[derive(Clone, Debug)]
pub struct PlanChecks {
    pub sim_config: SimConfig,
    pub people: Vec<Person>,
    pub accounts: Vec<AccountCheck>,
    pub streams: Vec<StreamCheck>,
    pub social_security: Vec<BenefitCheck>,
    pub state_tax: StateTaxCheck,
    pub assumptions: AssumptionsCheck,
    pub reinvest_into: Option<AccountId>,
    pub drawdown_phases: Vec<PhaseSpec>,
}

/// Every error a plan gets, in the order they are reported: the start date
/// and people, then each account, each stream, each Social Security
/// benefit, the state tax schedule, the assumptions, the reinvestment
/// destination, and each drawdown phase.
pub open spec fn spec_validate(p: PlanChecks) -> Seq<ErrorText> {
    spec_people_section(p.sim_config, p.people@) + accounts_errors(
        p.people@,
        p.accounts@,
        p.accounts@.len() as int,
    ) + streams_errors(p.streams@, p.streams@.len() as int) + benefits_errors(
        p.people@,
        p.social_security@,
        p.social_security@.len() as int,
    ) + state_tax_errors(p.state_tax) + assumptions_errors(p.assumptions) + reinvest_errors(
        p.accounts@,
        p.reinvest_into,
    ) + phases_errors(p.people@, p.accounts@, p.drawdown_phases@, p.drawdown_phases@.len() as int)
}

/// Structural and range checks a plan must pass before it is simulated or
/// saved: each error as a field path and a sentence for the user, in the
/// order of [`spec_validate`]. Empty for a plan that passes.
pub fn validate(p: &PlanChecks) -> (r: Vec<ValidationError>)
    requires
        p.people@.len() < i64::MAX,
        p.accounts@.len() <= i64::MAX,
        p.streams@.len() <= i64::MAX,
        p.social_security@.len() <= i64::MAX,
        p.state_tax.brackets@.len() <= i64::MAX,
        p.drawdown_phases@.len() <= i64::MAX,
        forall|i: int|
            0 <= i < p.drawdown_phases@.len() ==> (#[trigger] p.drawdown_phases@[i]).stack@.len()
                <= i64::MAX,
    ensures
        texts(r@) == spec_validate(*p),
{
    let mut errors = validate_people(&p.sim_config, &p.people);
    check_accounts(&mut errors, &p.people, &p.accounts);
    check_streams(&mut errors, &p.streams);
    check_benefits(&mut errors, &p.people, &p.social_security);
    check_state_tax(&mut errors, &p.state_tax);
    check_assumptions(&mut errors, &p.assumptions);
    check_reinvest(&mut errors, &p.accounts, &p.reinvest_into);
    check_phases(&mut errors, &p.people, &p.accounts, &p.drawdown_phases);
    proof {
        assert(texts(errors@) =~= spec_validate(*p));
    }
    errors
}

/// A claiming age outside 62..=70, the ages SSA pays a retirement benefit
/// from.
pub fn claiming_age_out_of_range(age: u8) -> (r: bool)
    ensures
        r == !(62 <= age <= 70),
{
    !(62 <= age && age <= 70)
}

/// A full retirement age, in whole years, outside 60..=70.
pub fn full_retirement_age_out_of_range(years: u8) -> (r: bool)
    ensures
        r == !(60 <= years <= 70),
{
    !(60 <= years && years <= 70)
}

/// Where each rung of a bracket schedule's thresholds must be: present on
/// every rung but the last, and absent on the last.
#[derive(Clone, Copy, Debug, PartialEq, Eq, Structural)]
pub enum BracketShape {
    /// The last bracket has a ceiling.
    LastIsBounded,
    /// A bracket before the last has none.
    EarlyUnbounded,
}

/// The shape problem of rung `i` of a schedule of `len` rungs, given
/// whether that rung has a ceiling.
pub fn bracket_shape(i: usize, len: usize, bounded: bool) -> (r: Option<BracketShape>)
    requires
        i < len,
    ensures
        r == (if bounded && i == len - 1 {
            Some(BracketShape::LastIsBounded)
        } else if !bounded && i != len - 1 {
            Some(BracketShape::EarlyUnbounded)
        } else {
            None
        }),
{
    if bounded && i == len - 1 {
        Some(BracketShape::LastIsBounded)
    } else if !bounded && i != len - 1 {
        Some(BracketShape::EarlyUnbounded)
    } else {
        None
    }
}

/// Validation never reports a plan empty of people as fine: the people
/// section of a plan with no one in it holds the "at least one person"
/// error.
pub proof fn lemma_empty_plan_is_refused(config: SimConfig)
    ensures
        spec_people_section(config, Seq::empty()).contains(
            ("people"@, "A plan needs at least one person."@),
        ),
{
    let d = date_errors("sim_config.start"@, "The plan start date"@, config.start);
    let s = spec_people_section(config, Seq::empty());
    assert(s[d.len() as int] == ("people"@, "A plan needs at least one person."@));
}

/// A well-formed date in range gets no errors.
pub proof fn lemma_valid_date_passes(field: Seq<char>, label: Seq<char>, date: YearMonth)
    requires
        date.valid(),
        MIN_YEAR <= date.year <= MAX_YEAR,
    ensures
        date_errors(field, label, date).len() == 0,
{
}

} // verus!
