//! What changes for a household at the first death: which Social Security
//! benefit the survivor keeps and from when, which streams stop, and where
//! a stream's survivor share begins.
//!
//! A household that leaves more than one survivor is left alone: a survivor
//! benefit goes to a spouse, and with no relationships in the model there
//! is no telling which of several people it would go to.
use vstd::prelude::*;

use crate::person::{death_month, month_at, Person, PersonId};
use crate::plan::{first_to_die_index, has_transition, is_first_to_die, is_first_with_id, transition_month, Timeline};
use crate::stream::{StreamBoundary, StreamKind};
use crate::year_month::YearMonth;

verus! {

/// `people[s]` is the only one alive after `month`.
pub open spec fn lone_survivor(people: Seq<Person>, month: YearMonth, s: int) -> bool {
    &&& 0 <= s < people.len()
    &&& month.before(death_month(people[s]))
    &&& forall|j: int|
        0 <= j < people.len() && j != s ==> !month.before(#[trigger] death_month(people[j]))
}

/// The first death, when it leaves exactly one person behind: its month,
/// who dies (an index into the plan's people), and who survives.
#[derive(Clone, Copy, Debug, PartialEq, Eq, Structural)]
pub struct SurvivorTransition {
    pub death: YearMonth,
    pub decedent: usize,
    pub survivor: usize,
}

/// The survivor transition Social Security follows: the first death (the
/// first of them in plan order when two fall in one month), if exactly one
/// person outlives it. `None` for a plan of one, when no one outlives the
/// first death, and when two or more do.
pub fn survivor_transition(t: &Timeline) -> (r: Option<SurvivorTransition>)
    ensures
        match r {
            Some(x) => {
                &&& has_transition(t.people@)
                &&& x.decedent == first_to_die_index(t.people@)
                &&& x.death == transition_month(t.people@)
                &&& lone_survivor(t.people@, x.death, x.survivor as int)
            },
            None => !has_transition(t.people@) || forall|s: int|
                !lone_survivor(t.people@, transition_month(t.people@), s),
        },
{
    let d = match t.first_to_die() {
        Some(d) => d,
        None => {
            return None;
        },
    };
    proof {
        crate::plan::lemma_first_to_die_unique(t.people@, d as int);
    }
    let death = t.people[d].death();
    let mut seen: Option<usize> = None;
    let mut k: usize = 0;
    while k < t.people.len()
        invariant
            k <= t.people@.len(),
            d < t.people@.len(),
            death == death_month(t.people@[d as int]),
            first_to_die_index(t.people@) == d,
            is_first_to_die(t.people@, d as int),
            match seen {
                None => forall|j: int| 0 <= j < k ==> !death.before(#[trigger] death_month(t.people@[j])),
                Some(a) => {
                    &&& a < k
                    &&& death.before(death_month(t.people@[a as int]))
                    &&& forall|j: int|
                        0 <= j < k && j != a ==> !death.before(#[trigger] death_month(t.people@[j]))
                },
            },
        decreases t.people@.len() - k,
    {
        if death.is_before(t.people[k].death()) {
            match seen {
                None => {
                    seen = Some(k);
                },
                Some(a) => {
                    proof {
                        assert forall|s: int| !lone_survivor(t.people@, death, s) by {
                            if s != a as int {
                                assert(!lone_survivor(t.people@, death, s)) by {
                                    if 0 <= s < t.people@.len() {
                                        assert(death.before(death_month(t.people@[a as int])));
                                    }
                                }
                            } else {
                                assert(death.before(death_month(t.people@[k as int])));
                            }
                        }
                    }
                    return None;
                },
            }
        }
        k = k + 1;
    }
    match seen {
        None => {
            proof {
                assert forall|i: int| is_first_to_die(t.people@, i) implies !crate::plan::outlived(
                    t.people@,
                    death_month(t.people@[i]),
                ) by {
                    crate::plan::lemma_first_to_die_unique(t.people@, i);
                }
            }
            None
        },
        Some(s) => {
            proof {
                assert(crate::plan::outlived(t.people@, death));
            }
            Some(SurvivorTransition { death, decedent: d, survivor: s })
        },
    }
}

/// The one left behind is never the one who died, and the survivor benefit
/// never starts before the death it follows.
pub proof fn lemma_survivor_outlives_the_decedent(
    people: Seq<Person>,
    x: SurvivorTransition,
    claiming: Option<YearMonth>,
)
    requires
        x.decedent < people.len(),
        x.death == death_month(people[x.decedent as int]),
        lone_survivor(people, x.death, x.survivor as int),
    ensures
        x.survivor != x.decedent,
        x.death.before(death_month(people[x.survivor as int])),
        match claiming {
            Some(m) => YearMonth::later(m, x.death).index() >= x.death.index(),
            None => true,
        },
{
}

/// The month a survivor's benefit starts: their own claiming month when
/// they have a benefit of their own, but never before the death; the death
/// itself for a survivor with none, who inherits from it.
pub fn survivor_benefit_start(survivor: &Person, death: YearMonth, own_claiming_age: Option<u8>) -> (r:
    YearMonth)
    ensures
        r == match own_claiming_age {
            Some(age) => YearMonth::later(month_at(*survivor, age as int), death),
            None => death,
        },
{
    match own_claiming_age {
        Some(age) => survivor.month_at_age(age).max(death),
        None => death,
    }
}

/// Each benefit's owner among the plan's people — the first with the
/// owner's id — or `None` for an owner who is not on the plan, whose
/// benefit is reported rather than paid.
pub fn benefit_owners(t: &Timeline, owners: &Vec<PersonId>) -> (r: Vec<Option<usize>>)
    ensures
        r@.len() == owners@.len(),
        forall|k: int|
            0 <= k < owners@.len() ==> match #[trigger] r@[k] {
                Some(i) => is_first_with_id(t.people@, owners@[k], i as int),
                None => t.lacks(owners@[k]),
            },
{
    let mut out: Vec<Option<usize>> = Vec::new();
    let mut k: usize = 0;
    while k < owners.len()
        invariant
            k <= owners@.len(),
            out@.len() == k,
            forall|q: int|
                0 <= q < k ==> match #[trigger] out@[q] {
                    Some(i) => is_first_with_id(t.people@, owners@[q], i as int),
                    None => t.lacks(owners@[q]),
                },
        decreases owners@.len() - k,
    {
        out.push(t.person_index(&owners[k]));
        k = k + 1;
    }
    out
}

/// Where a benefit's own stream ends: at its owner's death, except that a
/// survivor's own benefit stops at the first death — from there the
/// household draws the single survivor benefit instead.
pub fn benefit_end(t: &Timeline, transition: &Option<SurvivorTransition>, owner: usize) -> (r:
    StreamBoundary)
    requires
        owner < t.people@.len(),
        match transition {
            Some(x) => x.decedent < t.people@.len(),
            None => true,
        },
    ensures
        r == match transition {
            Some(x) => if t.people@[owner as int].id@ != t.people@[x.decedent as int].id@ {
                StreamBoundary::Date(x.death)
            } else {
                StreamBoundary::AtDeath(t.people@[owner as int].id)
            },
            None => StreamBoundary::AtDeath(t.people@[owner as int].id),
        },
{
    match transition {
        Some(x) => {
            if t.people[owner].id != t.people[x.decedent].id {
                StreamBoundary::Date(x.death)
            } else {
                StreamBoundary::AtDeath(t.people[owner].id.clone())
            }
        },
        None => StreamBoundary::AtDeath(t.people[owner].id.clone()),
    }
}

/// The month a stream stops paying its full amount and its survivor share
/// begins: its owner's death, for a stream that carries a survivor
/// percentage and whose owner is on the plan. `None` for every other
/// stream.
pub fn survivor_share_start(t: &Timeline, owner: &Option<PersonId>, has_percentage: bool) -> (r:
    Option<YearMonth>)
    ensures
        r == (if has_percentage && owner is Some && !t.lacks(owner->Some_0) {
            Some(death_month(t.people@[t.first_index(owner->Some_0)]))
        } else {
            None
        }),
{
    if !has_percentage {
        return None;
    }
    match owner {
        None => None,
        Some(id) => match t.person_index(id) {
            Some(i) => {
                proof {
                    crate::plan::lemma_first_with_id_unique(t.people@, *id, i as int);
                }
                Some(t.people[i].death())
            },
            None => None,
        },
    }
}

/// Where a stream's survivor share begins: its owner's death, for a stream
/// that carries a survivor percentage and has an owner on the plan.
pub open spec fn spec_share_start(t: Timeline, owner: Option<PersonId>, has_percentage: bool) -> Option<
    YearMonth,
> {
    if has_percentage && owner is Some && !t.lacks(owner->Some_0) {
        Some(death_month(t.people@[t.first_index(owner->Some_0)]))
    } else {
        None
    }
}

/// When a stream runs — from `start` up to `end` — and the month its
/// growth compounds from.
#[derive(Clone, Copy, Debug, PartialEq, Eq, Structural)]
pub struct StreamWindow {
    pub start: YearMonth,
    pub end: YearMonth,
    pub anchor: YearMonth,
}

/// A stream's window over the horizon `[plan_start, plan_end)`: `None`
/// when either boundary names someone not on the plan. A stream with a
/// survivor share stops at its owner's death if its own end runs past it
/// (the share picks up from there), and a pension that begins after the
/// plan does grows from its first payment; everything else grows from the
/// plan start.
pub open spec fn spec_stream_window(
    t: Timeline,
    start: StreamBoundary,
    end: StreamBoundary,
    owner: Option<PersonId>,
    has_percentage: bool,
    kind: StreamKind,
    plan_start: YearMonth,
    plan_end: YearMonth,
) -> Option<StreamWindow> {
    match (t.spec_resolve(start, plan_start, plan_end), t.spec_resolve(end, plan_start, plan_end)) {
        (Some(s), Some(e)) => Some(
            StreamWindow {
                start: s,
                end: match spec_share_start(t, owner, has_percentage) {
                    Some(d) => YearMonth::earlier(e, d),
                    None => e,
                },
                anchor: if kind == StreamKind::Pension && plan_start.before(s) {
                    s
                } else {
                    plan_start
                },
            },
        ),
        _ => None,
    }
}

/// A stream's window over the horizon `[plan_start, plan_end)`, as
/// [`spec_stream_window`] says.
pub fn stream_window(
    t: &Timeline,
    start: &StreamBoundary,
    end: &StreamBoundary,
    owner: &Option<PersonId>,
    has_percentage: bool,
    kind: StreamKind,
    plan_start: YearMonth,
    plan_end: YearMonth,
) -> (r: Option<StreamWindow>)
    ensures
        r == spec_stream_window(
            *t,
            *start,
            *end,
            *owner,
            has_percentage,
            kind,
            plan_start,
            plan_end,
        ),
{
    let s = match t.resolve_boundary(start, plan_start, plan_end) {
        Some(s) => s,
        None => return None,
    };
    let e = match t.resolve_boundary(end, plan_start, plan_end) {
        Some(e) => e,
        None => return None,
    };
    let e = match survivor_share_start(t, owner, has_percentage) {
        Some(d) => e.min(d),
        None => e,
    };
    let anchor = if kind == StreamKind::Pension && plan_start.is_before(s) {
        s
    } else {
        plan_start
    };
    Some(StreamWindow { start: s, end: e, anchor })
}

} // verus!
