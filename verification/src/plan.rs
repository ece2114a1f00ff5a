//! The plan's calendar: its period grid, and the questions about its people
//! that the simulation asks of it — who is in it, when the horizon ends,
//! and who outlives whom.
use vstd::prelude::*;

use crate::person::{death_month, month_at, Person, PersonId};
use crate::stream::StreamBoundary;
use crate::year_month::YearMonth;

verus! {

/// The layout version a persisted plan is written with.
pub const SCHEMA_VERSION: u32 = 2;

/// Household-wide mortality figure that plans written before each person
/// had their own life expectancy carried.
pub const DEFAULT_PLAN_END_AGE: u8 = 95;

/// The household-wide plan end age a plan that does not write one loads
/// with.
pub fn default_plan_end_age() -> (r: u8)
    ensures
        r == DEFAULT_PLAN_END_AGE,
{
    DEFAULT_PLAN_END_AGE
}

#[derive(Clone, Copy, Debug, PartialEq, Eq, Structural)]
pub enum PeriodLength {
    Year,
    /// In the schema so nothing migrates, but not what the loop runs: its
    /// grid is calendar years.
    Month,
}

impl PeriodLength {
    pub open spec fn spec_months(self) -> int {
        match self {
            PeriodLength::Year => 12,
            PeriodLength::Month => 1,
        }
    }

    /// Months in one period of this length.
    pub fn months(self) -> (r: i64)
        ensures
            r == self.spec_months(),
    {
        match self {
            PeriodLength::Year => 12,
            PeriodLength::Month => 1,
        }
    }
}

/// `a` before `b` in the (year, month) order months are compared in.
pub open spec fn lex_before(a: YearMonth, b: YearMonth) -> bool {
    a.year < b.year || (a.year == b.year && a.month < b.month)
}

pub fn is_lex_before(a: YearMonth, b: YearMonth) -> (r: bool)
    ensures
        r == lex_before(a, b),
{
    a.year < b.year || (a.year == b.year && a.month < b.month)
}

#[derive(Clone, Debug)]
pub struct SimConfig {
    /// First month of the simulation.
    pub start: YearMonth,
    pub period: PeriodLength,
    /// Display hint only: whether charts default to today's dollars.
    pub display_real_dollars: bool,
}

impl SimConfig {
    /// Index of the first period that begins strictly after `month`: the
    /// calendar year after the one `month` falls in, counted from the
    /// start's year. A month before the start is period 0.
    pub open spec fn spec_first_period_after(self, month: YearMonth) -> int {
        if lex_before(month, self.start) {
            0
        } else {
            month.year + 1 - self.start.year
        }
    }

    /// Index of the first period that begins at or after `month` and is a
    /// whole calendar year. A month at or before the start is period 0 when
    /// the plan starts in January, and period 1 otherwise: period 0 is then
    /// a stub of a year.
    pub open spec fn spec_first_full_period_at_or_after(self, month: YearMonth) -> int {
        if !lex_before(self.start, month) {
            if self.start.month != 1 {
                1
            } else {
                0
            }
        } else if month.month == 1 {
            month.year - self.start.year
        } else {
            month.year + 1 - self.start.year
        }
    }

    /// The period that begins strictly after `month`, clamped to 0 for a
    /// month before the plan start. Strict, because the period a death falls
    /// in keeps the pre-death rules and the next is the first that does
    /// not.
    pub fn first_period_after(&self, month: YearMonth) -> (r: usize)
        requires
            !lex_before(month, self.start) ==> month.year < i32::MAX && month.year + 1
                - self.start.year <= i32::MAX,
        ensures
            r == self.spec_first_period_after(month),
    {
        if is_lex_before(month, self.start) {
            return 0;
        }
        (month.year + 1 - self.start.year) as usize
    }

    /// The first period that begins at or after `month` and covers a whole
    /// calendar year — the first a change dated `month` covers in full, with
    /// no proration stub. Not bounded by the plan's length.
    pub fn first_full_period_at_or_after(&self, month: YearMonth) -> (r: usize)
        requires
            lex_before(self.start, month) ==> (month.month == 1 || month.year < i32::MAX)
                && self.spec_first_full_period_at_or_after(month) <= i32::MAX,
        ensures
            r == self.spec_first_full_period_at_or_after(month),
    {
        if !is_lex_before(self.start, month) {
            return if self.start.month != 1 {
                1
            } else {
                0
            };
        }
        let year = if month.month == 1 {
            month.year
        } else {
            month.year + 1
        };
        (year - self.start.year) as usize
    }
}

/// What the period helpers promise of each other: after the start, they
/// agree except on a January month, where the full-period helper names that
/// very period and the strict one the next.
pub proof fn lemma_period_helpers_part_on_january(config: SimConfig, month: YearMonth)
    requires
        lex_before(config.start, month),
    ensures
        config.spec_first_full_period_at_or_after(month) == config.spec_first_period_after(month)
            - (if month.month == 1 {
            1int
        } else {
            0int
        }),
{
}

/// The people of a plan and its calendar: everything the plan's
/// person-relative dates resolve against.
#[derive(Clone, Debug)]
pub struct Timeline {
    pub people: Vec<Person>,
    pub sim_config: SimConfig,
}

/// Whether `people[i]` is the first of `people` to die: no one dies
/// earlier, and everyone listed before them dies later.
pub open spec fn is_first_to_die(people: Seq<Person>, i: int) -> bool {
    &&& 0 <= i < people.len()
    &&& forall|j: int|
        0 <= j < people.len() ==> death_month(people[i]).index() <= #[trigger] death_month(
            people[j],
        ).index()
    &&& forall|j: int|
        0 <= j < i ==> death_month(people[i]).index() < #[trigger] death_month(people[j]).index()
}

/// Whether someone in `people` outlives `month`.
pub open spec fn outlived(people: Seq<Person>, month: YearMonth) -> bool {
    exists|k: int| 0 <= k < people.len() && month.before(#[trigger] death_month(people[k]))
}

/// Whether the plan has a survivor transition: a first death that someone
/// outlives.
pub open spec fn has_transition(people: Seq<Person>) -> bool {
    exists|i: int| is_first_to_die(people, i) && outlived(people, death_month(people[i]))
}

/// The index of the first person to die (meaningful for a non-empty plan).
pub open spec fn first_to_die_index(people: Seq<Person>) -> int {
    choose|i: int| is_first_to_die(people, i)
}

/// The month of the first death (meaningful for a non-empty plan).
pub open spec fn transition_month(people: Seq<Person>) -> YearMonth {
    death_month(people[first_to_die_index(people)])
}

/// Only one person is the first to die.
pub proof fn lemma_first_to_die_unique(people: Seq<Person>, i: int)
    requires
        is_first_to_die(people, i),
    ensures
        first_to_die_index(people) == i,
{
    let k = first_to_die_index(people);
    assert(is_first_to_die(people, k));
    if k < i {
        assert(death_month(people[i]).index() < death_month(people[k]).index());
    } else if i < k {
        assert(death_month(people[k]).index() < death_month(people[i]).index());
    }
}

/// Everyone in `people` still alive after `month`, in plan order.
pub open spec fn survivors(people: Seq<Person>, month: YearMonth) -> Seq<Person> {
    people.filter(|p: Person| month.before(death_month(p)))
}

/// The first person in `people` whose id is `id`.
pub open spec fn is_first_with_id(people: Seq<Person>, id: PersonId, i: int) -> bool {
    &&& 0 <= i < people.len()
    &&& people[i].id@ == id@
    &&& forall|j: int| 0 <= j < i ==> (#[trigger] people[j]).id@ != id@
}

impl Timeline {
    /// No person in the plan has the id `id`.
    pub open spec fn lacks(self, id: PersonId) -> bool {
        forall|j: int| 0 <= j < self.people@.len() ==> (#[trigger] self.people@[j]).id@ != id@
    }

    /// The index of the first person with id `id`, if any.
    pub fn person_index(&self, id: &PersonId) -> (r: Option<usize>)
        ensures
            match r {
                Some(i) => is_first_with_id(self.people@, *id, i as int),
                None => self.lacks(*id),
            },
    {
        let mut i: usize = 0;
        while i < self.people.len()
            invariant
                i <= self.people@.len(),
                forall|j: int| 0 <= j < i ==> (#[trigger] self.people@[j]).id@ != id@,
            decreases self.people@.len() - i,
        {
            if self.people[i].id == *id {
                return Some(i);
            }
            i = i + 1;
        }
        None
    }

    /// The first person with id `id`, if any.
    pub fn person(&self, id: &PersonId) -> (r: Option<&Person>)
        ensures
            match r {
                Some(p) => exists|i: int|
                    is_first_with_id(self.people@, *id, i) && *p == self.people@[i],
                None => self.lacks(*id),
            },
    {
        match self.person_index(id) {
            Some(i) => Some(&self.people[i]),
            None => None,
        }
    }

    /// Whether `m` is the last of everyone's deaths.
    pub open spec fn is_last_death(self, m: YearMonth) -> bool {
        &&& exists|i: int|
            0 <= i < self.people@.len() && m == death_month(#[trigger] self.people@[i])
        &&& forall|i: int|
            0 <= i < self.people@.len() ==> (#[trigger] death_month(self.people@[i])).index()
                <= m.index()
    }

    /// The month the horizon ends (see `end_month`).
    pub open spec fn spec_end_month(self) -> YearMonth {
        if self.people@.len() == 0 {
            self.sim_config.start
        } else {
            choose|m: YearMonth| self.is_last_death(m)
        }
    }

    /// The month the horizon ends: the last of everyone's deaths, so the
    /// projection runs to the last survivor. The plan start for a plan with
    /// no one in it.
    pub fn end_month(&self) -> (r: YearMonth)
        ensures
            r == self.spec_end_month(),
            self.people@.len() == 0 ==> r == self.sim_config.start,
            self.people@.len() > 0 ==> {
                &&& exists|i: int|
                    0 <= i < self.people@.len() && r == death_month(#[trigger] self.people@[i])
                &&& forall|i: int|
                    0 <= i < self.people@.len() ==> (#[trigger] death_month(
                        self.people@[i],
                    )).index() <= r.index()
            },
    {
        if self.people.len() == 0 {
            return self.sim_config.start;
        }
        let mut best = self.people[0].death();
        let mut i: usize = 1;
        while i < self.people.len()
            invariant
                1 <= i <= self.people@.len(),
                exists|k: int| 0 <= k < i && best == death_month(#[trigger] self.people@[k]),
                forall|k: int|
                    0 <= k < i ==> (#[trigger] death_month(self.people@[k])).index()
                        <= best.index(),
            decreases self.people@.len() - i,
        {
            let d = self.people[i].death();
            if best.month_index() <= d.month_index() {
                best = d;
            }
            i = i + 1;
        }
        proof {
            assert(self.is_last_death(best));
            let m = choose|m: YearMonth| self.is_last_death(m);
            let j = choose|j: int| 0 <= j < self.people@.len() && m == death_month(#[trigger] self.people@[j]);
            let k = choose|k: int| 0 <= k < self.people@.len() && best == death_month(#[trigger] self.people@[k]);
            assert(death_month(self.people@[j]).index() <= best.index());
            assert(death_month(self.people@[k]).index() <= m.index());
            crate::year_month::lemma_order_is_index_order(m, best);
        }
        best
    }

    /// The index of the first person to die, if anyone is in the plan.
    pub(crate) fn first_to_die(&self) -> (r: Option<usize>)
        ensures
            match r {
                Some(i) => is_first_to_die(self.people@, i as int),
                None => self.people@.len() == 0,
            },
    {
        if self.people.len() == 0 {
            return None;
        }
        let mut best: usize = 0;
        let mut best_month = self.people[0].death();
        let mut i: usize = 1;
        while i < self.people.len()
            invariant
                1 <= i <= self.people@.len(),
                best < i,
                best_month == death_month(self.people@[best as int]),
                forall|j: int|
                    0 <= j < i ==> best_month.index() <= (#[trigger] death_month(
                        self.people@[j],
                    )).index(),
                forall|j: int|
                    0 <= j < best ==> best_month.index() < (#[trigger] death_month(
                        self.people@[j],
                    )).index(),
            decreases self.people@.len() - i,
        {
            let d = self.people[i].death();
            if d.month_index() < best_month.month_index() {
                best = i;
                best_month = d;
            }
            i = i + 1;
        }
        Some(best)
    }

    /// Whether anyone dies after `month`.
    fn anyone_outlives(&self, month: YearMonth) -> (r: bool)
        ensures
            r == outlived(self.people@, month),
    {
        let mut i: usize = 0;
        while i < self.people.len()
            invariant
                i <= self.people@.len(),
                forall|j: int|
                    0 <= j < i ==> !month.before(#[trigger] death_month(self.people@[j])),
            decreases self.people@.len() - i,
        {
            if month.is_before(self.people[i].death()) {
                return true;
            }
            i = i + 1;
        }
        false
    }

    /// The first death that leaves someone behind: the month it happens and
    /// the person it happens to — the first of them in plan order when two
    /// die in the same month. `None` for a plan of one, and whenever no one
    /// outlives the first death (everyone's expectancy lands in the same
    /// month): there is no survivor, so nothing transitions.
    pub fn first_death(&self) -> (r: Option<(YearMonth, &Person)>)
        ensures
            r is Some == has_transition(self.people@),
            match r {
                Some((month, p)) => {
                    &&& is_first_to_die(self.people@, first_to_die_index(self.people@))
                    &&& *p == self.people@[first_to_die_index(self.people@)]
                    &&& month == transition_month(self.people@)
                    &&& outlived(self.people@, month)
                },
                None => true,
            },
    {
        match self.first_to_die() {
            None => {
                assert(!has_transition(self.people@));
                None
            },
            Some(i) => {
                proof {
                    lemma_first_to_die_unique(self.people@, i as int);
                }
                let month = self.people[i].death();
                if self.anyone_outlives(month) {
                    Some((month, &self.people[i]))
                } else {
                    proof {
                        assert forall|k: int| is_first_to_die(self.people@, k) implies !outlived(
                            self.people@,
                            death_month(self.people@[k]),
                        ) by {
                            lemma_first_to_die_unique(self.people@, k);
                        }
                    }
                    None
                }
            },
        }
    }

    /// Everyone still alive after `month`, in plan order.
    pub fn survivors_after(&self, month: YearMonth) -> (r: Vec<&Person>)
        ensures
            r@.len() == survivors(self.people@, month).len(),
            forall|i: int| 0 <= i < r@.len() ==> *r@[i] == survivors(self.people@, month)[i],
    {
        let mut out: Vec<&Person> = Vec::new();
        let mut i: usize = 0;
        while i < self.people.len()
            invariant
                i <= self.people@.len(),
                out@.len() == survivors(self.people@.take(i as int), month).len(),
                forall|k: int|
                    0 <= k < out@.len() ==> *out@[k] == survivors(self.people@.take(i as int), month)[k],
            decreases self.people@.len() - i,
        {
            proof {
                reveal_with_fuel(Seq::<_>::filter, 1);
                assert(self.people@.take(i + 1).drop_last() =~= self.people@.take(i as int));
            }
            if month.is_before(self.people[i].death()) {
                out.push(&self.people[i]);
            }
            i = i + 1;
        }
        proof {
            assert(self.people@.take(self.people@.len() as int) =~= self.people@);
        }
        out
    }

    /// Everyone's birth year, in plan order.
    pub fn birth_years(&self) -> (r: Vec<i32>)
        ensures
            r@.len() == self.people@.len(),
            forall|i: int| 0 <= i < r@.len() ==> r@[i] == (#[trigger] self.people@[i]).birth.year,
    {
        let mut out: Vec<i32> = Vec::new();
        let mut i: usize = 0;
        while i < self.people.len()
            invariant
                i <= self.people@.len(),
                out@.len() == i,
                forall|k: int| 0 <= k < i ==> out@[k] == (#[trigger] self.people@[k]).birth.year,
            decreases self.people@.len() - i,
        {
            out.push(self.people[i].birth.year);
            i = i + 1;
        }
        out
    }

    /// The month `boundary` falls on, given the plan's `start` and `end`:
    /// `None` when it names a person who is not in the plan.
    pub open spec fn spec_resolve(
        self,
        boundary: StreamBoundary,
        start: YearMonth,
        end: YearMonth,
    ) -> Option<YearMonth> {
        match boundary {
            StreamBoundary::PlanStart => Some(start),
            StreamBoundary::PlanEnd => Some(end),
            StreamBoundary::Date(d) => Some(d),
            StreamBoundary::AtRetirement(id) => if self.lacks(id) {
                None
            } else {
                Some(self.people@[self.first_index(id)].retirement)
            },
            StreamBoundary::AtDeath(id) => if self.lacks(id) {
                None
            } else {
                Some(death_month(self.people@[self.first_index(id)]))
            },
            StreamBoundary::AtAge(id, age) => if self.lacks(id) {
                None
            } else {
                Some(month_at(self.people@[self.first_index(id)], age as int))
            },
        }
    }

    /// The index of the first person with `id` (meaningful only when there
    /// is one).
    pub open spec fn first_index(self, id: PersonId) -> int {
        choose|i: int| is_first_with_id(self.people@, id, i)
    }

    /// Resolves `boundary` to a month.
    pub fn resolve_boundary(
        &self,
        boundary: &StreamBoundary,
        start: YearMonth,
        end: YearMonth,
    ) -> (r: Option<YearMonth>)
        ensures
            r == self.spec_resolve(*boundary, start, end),
    {
        match boundary {
            StreamBoundary::PlanStart => Some(start),
            StreamBoundary::PlanEnd => Some(end),
            StreamBoundary::Date(d) => Some(*d),
            StreamBoundary::AtRetirement(id) => match self.person_index(id) {
                Some(i) => {
                    proof {
                        lemma_first_with_id_unique(self.people@, *id, i as int);
                    }
                    Some(self.people[i].retirement)
                },
                None => None,
            },
            StreamBoundary::AtDeath(id) => match self.person_index(id) {
                Some(i) => {
                    proof {
                        lemma_first_with_id_unique(self.people@, *id, i as int);
                    }
                    Some(self.people[i].death())
                },
                None => None,
            },
            StreamBoundary::AtAge(id, age) => match self.person_index(id) {
                Some(i) => {
                    proof {
                        lemma_first_with_id_unique(self.people@, *id, i as int);
                    }
                    Some(self.people[i].month_at_age(*age))
                },
                None => None,
            },
        }
    }
}

/// There is only one first person with a given id.
pub proof fn lemma_first_with_id_unique(people: Seq<Person>, id: PersonId, i: int)
    requires
        is_first_with_id(people, id, i),
    ensures
        (choose|k: int| is_first_with_id(people, id, k)) == i,
{
    let k = choose|k: int| is_first_with_id(people, id, k);
    assert(is_first_with_id(people, id, k));
    if k < i {
        assert(people[k].id@ != id@);
    } else if i < k {
        assert(people[i].id@ != id@);
    }
}

/// The first death is the earliest of anyone's, and the month it resolves
/// to is one the horizon reaches: it comes no later than the plan's end.
pub proof fn lemma_first_death_precedes_end(people: Seq<Person>, i: int, end: YearMonth)
    requires
        is_first_to_die(people, i),
        forall|k: int|
            0 <= k < people.len() ==> (#[trigger] death_month(people[k])).index() <= end.index(),
    ensures
        death_month(people[i]).index() <= end.index(),
{
    assert(death_month(people[i]).index() <= end.index());
}

/// A plan of one has no survivor transition: no one outlives the only
/// death.
pub proof fn lemma_one_person_has_no_transition(p: Person)
    ensures
        !has_transition(seq![p]),
{
    let people = seq![p];
    assert forall|i: int| is_first_to_die(people, i) implies !outlived(people, death_month(people[i])) by {
        assert forall|k: int| 0 <= k < people.len() implies !death_month(people[i]).before(
            #[trigger] death_month(people[k]),
        ) by {
            assert(k == 0 && i == 0);
        }
    }
}

/// Everyone who survives a death is someone in the plan who dies later.
pub proof fn lemma_survivors_outlive(people: Seq<Person>, month: YearMonth, i: int)
    requires
        0 <= i < survivors(people, month).len(),
    ensures
        month.before(death_month(survivors(people, month)[i])),
        people.contains(survivors(people, month)[i]),
{
    let pred = |p: Person| month.before(death_month(p));
    assert(survivors(people, month) == people.filter(pred));
    people.lemma_filter_pred(pred, i);
    assert(people.filter(pred).contains(people.filter(pred)[i]));
    people.lemma_filter_contains_rev(pred, people.filter(pred)[i]);
}

/// An age boundary is a birthday: `AtAge(id, n)` resolves to the month of
/// the person's birth, `n` years on — same month, year plus `n` — for
/// someone on the plan born in a well-formed month.
pub proof fn lemma_age_boundary_is_the_birthday(
    t: Timeline,
    id: PersonId,
    age: u8,
    start: YearMonth,
    end: YearMonth,
)
    requires
        !t.lacks(id),
        t.people@[t.first_index(id)].birth.valid(),
        t.people@[t.first_index(id)].birth.year + age <= i32::MAX,
    ensures
        ({
            let birth = t.people@[t.first_index(id)].birth;
            t.spec_resolve(StreamBoundary::AtAge(id, age), start, end) matches Some(m) && m.year
                == birth.year + age && m.month == birth.month
        }),
{
    let birth = t.people@[t.first_index(id)].birth;
    assert(YearMonth::index_in_range(birth.index() + age * 12)) by {
        let i = birth.index() + age * 12;
        assert(i == (birth.year + age) * 12 + (birth.month - 1));
        vstd::arithmetic::div_mod::lemma_fundamental_div_mod_converse(
            i,
            12,
            birth.year + age,
            birth.month - 1,
        );
    }
    crate::year_month::lemma_plus_whole_years(birth, age as int);
    crate::year_month::lemma_plus_whole_years_month(birth, age as int);
}

/// The other boundaries resolve to what they name: the plan's start and
/// end, a date as it is, and a person's retirement month and the month
/// they reach their life expectancy (their birth month, that many years
/// on); a boundary naming someone not on the plan resolves to nothing.
pub proof fn lemma_boundaries_resolve_to_what_they_name(
    t: Timeline,
    id: PersonId,
    d: YearMonth,
    start: YearMonth,
    end: YearMonth,
)
    ensures
        t.spec_resolve(StreamBoundary::PlanStart, start, end) == Some(start),
        t.spec_resolve(StreamBoundary::PlanEnd, start, end) == Some(end),
        t.spec_resolve(StreamBoundary::Date(d), start, end) == Some(d),
        t.lacks(id) ==> t.spec_resolve(StreamBoundary::AtRetirement(id), start, end) is None
            && t.spec_resolve(StreamBoundary::AtDeath(id), start, end) is None && forall|n: u8|
            #[trigger] t.spec_resolve(StreamBoundary::AtAge(id, n), start, end) is None,
        !t.lacks(id) ==> t.spec_resolve(StreamBoundary::AtRetirement(id), start, end) == Some(
            t.people@[t.first_index(id)].retirement,
        ),
        ({
            let p = t.people@[t.first_index(id)];
            !t.lacks(id) && p.birth.valid() && p.birth.year + p.life_expectancy_age <= i32::MAX
                ==> (t.spec_resolve(StreamBoundary::AtDeath(id), start, end) matches Some(m) && m.year
                == p.birth.year + p.life_expectancy_age && m.month == p.birth.month)
        }),
{
    let p = t.people@[t.first_index(id)];
    if !t.lacks(id) && p.birth.valid() && p.birth.year + p.life_expectancy_age <= i32::MAX {
        lemma_age_boundary_is_the_birthday(t, id, p.life_expectancy_age, start, end);
    }
}

} // verus!
