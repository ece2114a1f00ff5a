//! The household/scenario split, for the parts of a plan that are people:
//! who someone is (a household fact) and when they retire and are assumed
//! to die (a scenario's decision), and how the two halves join back into
//! the people a plan simulates.
use vstd::prelude::*;

use crate::person::{Person, PersonId};
use crate::year_month::YearMonth;

verus! {

/// A person as the household knows them: who they are and when they were
/// born.
#[derive(Clone, Debug, PartialEq)]
pub struct HouseholdPerson {
    pub id: PersonId,
    pub name: String,
    pub birth: YearMonth,
}

/// What a scenario decides about a person.
#[derive(Clone, Debug, PartialEq)]
pub struct PersonPolicy {
    pub retirement: YearMonth,
    pub life_expectancy_age: u8,
}

/// Why a scenario and its household do not fit together: the scenario has
/// no policy for an entity the household holds.
#[derive(Clone, Debug, PartialEq, Eq)]
pub struct ComposeError {
    pub message: String,
}

/// The text `{:?}` writes for a string: the string in double quotes, with
/// quotes, backslashes and unprintable characters escaped.
pub uninterp spec fn debug_text(s: Seq<char>) -> Seq<char>;

/// A string `{:?}` writes unescaped: printable ASCII other than the quote
/// and the backslash.
pub open spec fn plain(s: Seq<char>) -> bool {
    forall|i: int| 0 <= i < s.len() ==> ' ' <= #[trigger] s[i] <= '~' && s[i] != '"' && s[i] != '\\'
}

/// The string as `{:?}` writes it, through std's `Debug` for `str`.
///
/// Trusted: the result is that text, a function of `s` alone; for a string
/// of plain printable ASCII with no quote or backslash, std writes it
/// unchanged between two double quotes.
#[verifier::external_body]
fn debug_quoted(s: &str) -> (r: String)
    ensures
        r@ == debug_text(s@),
        plain(s@) ==> r@ == seq!['"'] + s@ + seq!['"'],
{
    format!("{:?}", s)
}

/// The message of a scenario that has no policy for `kind` `id`.
pub open spec fn missing_message(kind: Seq<char>, id: Seq<char>, scenario: Seq<char>) -> Seq<char> {
    "scenario "@ + debug_text(scenario) + " has no policy for "@ + kind + " "@ + debug_text(id)
}

/// The error for a scenario with no policy for `kind` `id`.
pub fn missing(kind: &str, id: &str, scenario: &str) -> (r: ComposeError)
    ensures
        r.message@ == missing_message(kind@, id@, scenario@),
{
    proof {
        reveal_strlit("scenario ");
        reveal_strlit(" has no policy for ");
        reveal_strlit(" ");
    }
    let mut message = crate::text::text("scenario ");
    let quoted_scenario = debug_quoted(scenario);
    crate::text::push_str(&mut message, quoted_scenario.as_str());
    crate::text::push_str(&mut message, " has no policy for ");
    crate::text::push_str(&mut message, kind);
    crate::text::push_str(&mut message, " ");
    let quoted_id = debug_quoted(id);
    crate::text::push_str(&mut message, quoted_id.as_str());
    proof {
        assert(message@ =~= missing_message(kind@, id@, scenario@));
    }
    ComposeError { message }
}

/// The person a household fact and a scenario's policy describe together.
pub open spec fn joined(h: HouseholdPerson, p: PersonPolicy) -> Person {
    Person {
        id: h.id,
        name: h.name,
        birth: h.birth,
        retirement: p.retirement,
        life_expectancy_age: p.life_expectancy_age,
    }
}

/// The household's half of a person.
pub open spec fn household_part(p: Person) -> HouseholdPerson {
    HouseholdPerson { id: p.id, name: p.name, birth: p.birth }
}

/// The scenario's half of a person.
pub open spec fn policy_part(p: Person) -> PersonPolicy {
    PersonPolicy { retirement: p.retirement, life_expectancy_age: p.life_expectancy_age }
}

/// `keys[k]` is the first entry keyed `id`.
pub open spec fn keyed_at<T>(keys: Seq<(String, T)>, id: Seq<char>, k: int) -> bool {
    &&& 0 <= k < keys.len()
    &&& keys[k].0@ == id
    &&& forall|j: int| 0 <= j < k ==> (#[trigger] keys[j]).0@ != id
}

/// Some entry of `keys` is keyed `id`.
pub open spec fn has_key<T>(keys: Seq<(String, T)>, id: Seq<char>) -> bool {
    exists|k: int| 0 <= k < keys.len() && (#[trigger] keys[k]).0@ == id
}

/// The index of the first entry keyed `id`: how a scenario's policy for a
/// household entity is found.
pub fn find_policy<T>(policies: &Vec<(String, T)>, id: &String) -> (r: Option<usize>)
    ensures
        match r {
            Some(k) => keyed_at(policies@, id@, k as int),
            None => !has_key(policies@, id@),
        },
{
    let mut k: usize = 0;
    while k < policies.len()
        invariant
            k <= policies@.len(),
            forall|j: int| 0 <= j < k ==> (#[trigger] policies@[j]).0@ != id@,
        decreases policies@.len() - k,
    {
        if policies[k].0 == *id {
            return Some(k);
        }
        k = k + 1;
    }
    None
}

/// `ids[i]` is the first of `ids` that `policies` has no entry for.
pub open spec fn first_unmatched<T>(ids: Seq<String>, policies: Seq<(String, T)>, i: int) -> bool {
    &&& 0 <= i < ids.len()
    &&& !has_key(policies, ids[i]@)
    &&& forall|j: int| 0 <= j < i ==> has_key(policies, (#[trigger] ids[j])@)
}

/// Each household entity's policy (`ids` are the entities' ids, in
/// household order): the index of the first entry keyed by each, or — for
/// the first entity with none — the error that names it as a `kind`.
pub fn match_policies<T>(ids: &Vec<String>, policies: &Vec<(String, T)>, kind: &str, scenario: &str) -> (r:
    Result<Vec<usize>, ComposeError>)
    ensures
        match r {
            Ok(found) => {
                &&& found@.len() == ids@.len()
                &&& forall|i: int|
                    0 <= i < ids@.len() ==> keyed_at(policies@, ids@[i]@, #[trigger] found@[i] as int)
            },
            Err(e) => exists|i: int|
                first_unmatched(ids@, policies@, i) && e.message@ == missing_message(
                    kind@,
                    ids@[i]@,
                    scenario@,
                ),
        },
        r is Ok <==> forall|i: int| 0 <= i < ids@.len() ==> has_key(policies@, (#[trigger] ids@[i])@),
{
    let mut found: Vec<usize> = Vec::new();
    let mut i: usize = 0;
    while i < ids.len()
        invariant
            i <= ids@.len(),
            found@.len() == i,
            forall|j: int| 0 <= j < i ==> keyed_at(policies@, ids@[j]@, #[trigger] found@[j] as int),
        decreases ids@.len() - i,
    {
        match find_policy(policies, &ids[i]) {
            Some(k) => {
                found.push(k);
            },
            None => {
                proof {
                    assert forall|j: int| 0 <= j < i implies has_key(
                        policies@,
                        (#[trigger] ids@[j])@,
                    ) by {
                        assert(policies@[found@[j] as int].0@ == ids@[j]@);
                    }
                    assert(first_unmatched(ids@, policies@, i as int));
                }
                return Err(missing(kind, ids[i].as_str(), scenario));
            },
        }
        i = i + 1;
    }
    proof {
        assert forall|j: int| 0 <= j < ids@.len() implies has_key(policies@, (#[trigger] ids@[j])@) by {
            assert(policies@[found@[j] as int].0@ == ids@[j]@);
        }
    }
    Ok(found)
}

/// The index of the first entry keyed `id` (meaningful when there is one).
pub open spec fn policy_index<T>(keys: Seq<(String, T)>, id: Seq<char>) -> int {
    choose|k: int| keyed_at(keys, id, k)
}

/// Only one entry is the first keyed `id`.
pub proof fn lemma_keyed_at_unique<T>(keys: Seq<(String, T)>, id: Seq<char>, k: int)
    requires
        keyed_at(keys, id, k),
    ensures
        policy_index(keys, id) == k,
{
    let c = policy_index(keys, id);
    assert(keyed_at(keys, id, c));
    if c < k {
        assert(keys[c].0@ == id);
    } else if k < c {
        assert(keys[k].0@ == id);
    }
}

/// `people` is what the household and the scenario's person policies
/// compose to: each household person joined with the first policy keyed by
/// their id.
pub open spec fn composes_to(
    household: Seq<HouseholdPerson>,
    policies: Seq<(String, PersonPolicy)>,
    people: Seq<Person>,
) -> bool {
    &&& people.len() == household.len()
    &&& forall|i: int|
        0 <= i < household.len() ==> has_key(policies, (#[trigger] household[i]).id@) && people[i]
            == joined(household[i], policies[policy_index(policies, household[i].id@)].1)
}

/// The household person with no policy who comes first.
pub open spec fn first_without_policy(
    household: Seq<HouseholdPerson>,
    policies: Seq<(String, PersonPolicy)>,
    i: int,
) -> bool {
    &&& 0 <= i < household.len()
    &&& !has_key(policies, household[i].id@)
    &&& forall|j: int| 0 <= j < i ==> has_key(policies, (#[trigger] household[j]).id@)
}

/// The plan's people from the household's and a scenario's policies, keyed
/// by person id. Every household person appears, in household order; a
/// person the scenario has no policy for is an error, never an invented
/// date.
pub fn compose_people(
    household: &Vec<HouseholdPerson>,
    policies: &Vec<(PersonId, PersonPolicy)>,
    scenario: &str,
) -> (r: Result<Vec<Person>, ComposeError>)
    ensures
        match r {
            Ok(people) => composes_to(household@, policies@, people@),
            Err(e) => exists|i: int|
                first_without_policy(household@, policies@, i) && e.message@ == missing_message(
                    "person"@,
                    household@[i].id@,
                    scenario@,
                ),
        },
        r is Ok <==> forall|i: int|
            0 <= i < household@.len() ==> has_key(policies@, (#[trigger] household@[i]).id@),
{
    let mut people: Vec<Person> = Vec::new();
    let mut i: usize = 0;
    while i < household.len()
        invariant
            i <= household@.len(),
            people@.len() == i,
            forall|j: int|
                0 <= j < i ==> has_key(policies@, (#[trigger] household@[j]).id@) && people@[j]
                    == joined(
                    household@[j],
                    policies@[policy_index(policies@, household@[j].id@)].1,
                ),
        decreases household@.len() - i,
    {
        let h = &household[i];
        match find_policy(policies, &h.id) {
            Some(k) => {
                let policy = &policies[k].1;
                proof {
                    lemma_keyed_at_unique(policies@, h.id@, k as int);
                }
                people.push(
                    Person {
                        id: h.id.clone(),
                        name: h.name.clone(),
                        birth: h.birth,
                        retirement: policy.retirement,
                        life_expectancy_age: policy.life_expectancy_age,
                    },
                );
            },
            None => {
                proof {
                    reveal_strlit("person");
                    assert(first_without_policy(household@, policies@, i as int));
                }
                return Err(missing("person", h.id.as_str(), scenario));
            },
        }
        i = i + 1;
    }
    Ok(people)
}

/// Splits the plan's people into the household's facts and the scenario's
/// policy for each, keyed by person id, in plan order.
pub fn decompose_people(people: &Vec<Person>) -> (r: (Vec<HouseholdPerson>, Vec<(PersonId, PersonPolicy)>))
    ensures
        r.0@.len() == people@.len(),
        r.1@.len() == people@.len(),
        forall|i: int| 0 <= i < people@.len() ==> #[trigger] r.0@[i] == household_part(people@[i]),
        forall|i: int|
            0 <= i < people@.len() ==> #[trigger] r.1@[i] == (people@[i].id, policy_part(people@[i])),
{
    let mut facts: Vec<HouseholdPerson> = Vec::new();
    let mut policies: Vec<(PersonId, PersonPolicy)> = Vec::new();
    let mut i: usize = 0;
    while i < people.len()
        invariant
            i <= people@.len(),
            facts@.len() == i,
            policies@.len() == i,
            forall|j: int| 0 <= j < i ==> #[trigger] facts@[j] == household_part(people@[j]),
            forall|j: int|
                0 <= j < i ==> #[trigger] policies@[j] == (people@[j].id, policy_part(people@[j])),
        decreases people@.len() - i,
    {
        let p = &people[i];
        facts.push(HouseholdPerson { id: p.id.clone(), name: p.name.clone(), birth: p.birth });
        policies.push(
            (
                p.id.clone(),
                PersonPolicy { retirement: p.retirement, life_expectancy_age: p.life_expectancy_age },
            ),
        );
        i = i + 1;
    }
    (facts, policies)
}

/// No two of `people` share an id.
pub open spec fn distinct_ids(people: Seq<Person>) -> bool {
    forall|a: int, b: int| 0 <= a < b < people.len() ==> (#[trigger] people[a]).id@ != (
    #[trigger] people[b]).id@
}

/// Splitting a plan's people and composing them back is the identity:
/// every fact and every decision lands on exactly one side, each person's
/// policy is found under their own id, and the people that come back are
/// the people the plan started with — for a plan whose people have
/// distinct ids (with a repeated id, the scenario keeps one policy for
/// both).
pub proof fn lemma_compose_undoes_decompose(people: Seq<Person>)
    requires
        distinct_ids(people),
    ensures
        ({
            let household = people.map_values(|p: Person| household_part(p));
            let policies = people.map_values(|p: Person| (p.id, policy_part(p)));
            &&& forall|i: int|
                0 <= i < household.len() ==> has_key(policies, (#[trigger] household[i]).id@)
            &&& composes_to(household, policies, people)
        }),
{
    let household = people.map_values(|p: Person| household_part(p));
    let policies = people.map_values(|p: Person| (p.id, policy_part(p)));
    assert forall|i: int| 0 <= i < household.len() implies has_key(
        policies,
        (#[trigger] household[i]).id@,
    ) && people[i] == joined(household[i], policies[policy_index(policies, household[i].id@)].1) by {
        assert(keyed_at(policies, household[i].id@, i));
        lemma_keyed_at_unique(policies, household[i].id@, i);
        assert(policies[i].0@ == household[i].id@);
    }
}

/// The index of the first of `ids` equal to `id`: how a stored record is
/// found again by its id.
pub fn first_index_of(ids: &Vec<String>, id: &String) -> (r: Option<usize>)
    ensures
        match r {
            Some(k) => k < ids@.len() && ids@[k as int]@ == id@ && forall|j: int|
                0 <= j < k ==> (#[trigger] ids@[j])@ != id@,
            None => forall|j: int| 0 <= j < ids@.len() ==> (#[trigger] ids@[j])@ != id@,
        },
{
    let mut k: usize = 0;
    while k < ids.len()
        invariant
            k <= ids@.len(),
            forall|j: int| 0 <= j < k ==> (#[trigger] ids@[j])@ != id@,
        decreases ids@.len() - k,
    {
        if ids[k] == *id {
            return Some(k);
        }
        k = k + 1;
    }
    None
}

/// The current reading: the newest of an account's observations, `None`
/// before the first.
pub fn current_reading<T>(observations: &Vec<T>) -> (r: Option<&T>)
    ensures
        match r {
            Some(o) => observations@.len() > 0 && *o == observations@.last(),
            None => observations@.len() == 0,
        },
{
    let n = observations.len();
    if n == 0 {
        None
    } else {
        Some(&observations[n - 1])
    }
}

/// Records a corrected reading as the current one. An edit amends the
/// newest observation rather than appending another: the history behind it
/// is untouched, and an account with no readings yet starts with exactly
/// one.
pub fn amend_current<T>(observations: &mut Vec<T>, current: T)
    ensures
        old(observations)@.len() == 0 ==> final(observations)@ == seq![current],
        old(observations)@.len() > 0 ==> final(observations)@ == old(observations)@.update(
            old(observations)@.len() - 1,
            current,
        ),
{
    let n = observations.len();
    if n == 0 {
        observations.push(current);
        proof {
            assert(observations@ =~= seq![current]);
        }
    } else {
        observations.set(n - 1, current);
    }
}

/// An amendment keeps the number of readings (or makes the first one), and
/// never touches any but the newest.
pub proof fn lemma_amend_keeps_history<T>(before: Seq<T>, after: Seq<T>, current: T)
    requires
        before.len() > 0,
        after == before.update(before.len() - 1, current),
    ensures
        after.len() == before.len(),
        forall|i: int| 0 <= i < before.len() - 1 ==> after[i] == before[i],
        after.last() == current,
{
}

} // verus!
