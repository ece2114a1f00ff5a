//! Phased drawdown: which accounts each phase of the plan draws from, in
//! what order, and which phase is in force in any month.
//!
//! Each phase's stack is resolved once: an `Account` entry names one
//! account, a `Kind` entry every account of that kind no earlier entry
//! named, and an account named twice is drawn where it is first named.
//! Accounts no entry names are the phase's fallback. Phases then run in the
//! order of their start months; of two that start in the same month, the
//! one listed later is in force.
use vstd::prelude::*;

use crate::account::{AccountFacts, AccountId, AccountKind};
use crate::person::{PersonId, PENALTY_FREE_AGE_MONTHS};
use crate::plan::{lex_before, Timeline};
use crate::stream::StreamBoundary;
use crate::year_month::YearMonth;

verus! {

/// When a phase begins.
#[derive(Clone, Debug, PartialEq, Eq)]
pub enum PhaseStart {
    /// Any date a stream or contribution can start at.
    Boundary(StreamBoundary),
    /// The month this person reaches 59½.
    PenaltyFree(PersonId),
}

/// What a stack entry draws from.
#[derive(Clone, Debug, PartialEq, Eq)]
pub enum StackSource {
    /// One account.
    Account(AccountId),
    /// Every account of this kind that no earlier entry already names.
    Kind(AccountKind),
}

/// One phase as the plan states it: its start and its stack, top to bottom.
/// (The balance each entry holds back is carried beside this, entry for
/// entry.)
#[derive(Clone, Debug)]
pub struct PhaseSpec {
    pub id: String,
    pub start: PhaseStart,
    pub stack: Vec<StackSource>,
}

/// One phase, resolved: the month it takes over, each stack entry's
/// accounts (indices into the plan's accounts, ascending), and the accounts
/// no entry names.
#[derive(Clone, Debug)]
pub struct ResolvedPhase {
    /// Index of the phase in the plan's list it was resolved from.
    pub source: usize,
    pub id: String,
    pub start: YearMonth,
    pub rungs: Vec<Vec<usize>>,
    pub unlisted: Vec<usize>,
}

/// Whether `source` names `account`.
pub open spec fn names(source: StackSource, account: AccountFacts) -> bool {
    match source {
        StackSource::Account(id) => account.id@ == id@,
        StackSource::Kind(kind) => account.kind == kind,
    }
}

/// Whether one of the first `k` entries of `stack` names `account`.
pub open spec fn claimed_before(stack: Seq<StackSource>, k: int, account: AccountFacts) -> bool {
    exists|j: int| 0 <= j < k && names(#[trigger] stack[j], account)
}

/// Whether entry `k` of `stack` draws from `account`: it names it, and no
/// earlier entry did.
pub open spec fn in_rung(stack: Seq<StackSource>, k: int, account: AccountFacts) -> bool {
    names(stack[k], account) && !claimed_before(stack, k, account)
}

/// `r` lists, in ascending order, exactly the indices below `n` that
/// satisfy `member`.
pub open spec fn lists_exactly(r: Seq<usize>, n: int, member: spec_fn(int) -> bool) -> bool {
    &&& forall|a: int, b: int| 0 <= a < b < r.len() ==> r[a] < r[b]
    &&& forall|a: int| 0 <= a < r.len() ==> r[a] < n && member(r[a] as int)
    &&& forall|i: int| 0 <= i < n && #[trigger] member(i) ==> r.contains(i as usize)
}

/// The fallback's kind order: cash already taxed, then capital-gains money,
/// then ordinary income, then the tax-free accounts last.
pub open spec fn fallback_position(kind: AccountKind) -> int {
    match kind {
        AccountKind::Savings => 0,
        AccountKind::Taxable => 1,
        AccountKind::TraditionalPreTax => 2,
        AccountKind::Roth => 3,
        AccountKind::Hsa => 4,
    }
}

/// The rank of the fallback group money of `kind` falls in, penalized or
/// not.
pub open spec fn fallback_rank(penalized: bool, kind: AccountKind) -> int {
    (if penalized {
        5int
    } else {
        0int
    }) + fallback_position(kind)
}

/// The fallback group an account's money falls in: penalty-free money
/// before penalized money, and within each by kind.
pub fn fallback_group(penalized: bool, kind: AccountKind) -> (r: usize)
    ensures
        r == fallback_rank(penalized, kind),
        r < 10,
{
    let position: usize = match kind {
        AccountKind::Savings => 0,
        AccountKind::Taxable => 1,
        AccountKind::TraditionalPreTax => 2,
        AccountKind::Roth => 3,
        AccountKind::Hsa => 4,
    };
    if penalized {
        5 + position
    } else {
        position
    }
}

fn source_names(source: &StackSource, account: &AccountFacts) -> (r: bool)
    ensures
        r == names(*source, *account),
{
    match source {
        StackSource::Account(id) => account.id == *id,
        StackSource::Kind(kind) => account.kind == *kind,
    }
}

/// Resolves a stack against the plan's accounts: the accounts each entry
/// draws from, and those no entry names.
pub fn resolve_stack(stack: &Vec<StackSource>, accounts: &Vec<AccountFacts>) -> (r: (
    Vec<Vec<usize>>,
    Vec<usize>,
))
    ensures
        r.0@.len() == stack@.len(),
        forall|k: int|
            0 <= k < stack@.len() ==> lists_exactly(
                #[trigger] r.0@[k]@,
                accounts@.len() as int,
                |i: int| in_rung(stack@, k, accounts@[i]),
            ),
        lists_exactly(
            r.1@,
            accounts@.len() as int,
            |i: int| !claimed_before(stack@, stack@.len() as int, accounts@[i]),
        ),
{
    let n = accounts.len();
    let mut claimed: Vec<bool> = Vec::new();
    let mut i: usize = 0;
    while i < n
        invariant
            n == accounts@.len(),
            i <= n,
            claimed@.len() == i,
            forall|a: int| 0 <= a < i ==> !claimed@[a],
        decreases n - i,
    {
        claimed.push(false);
        i = i + 1;
    }
    let mut rungs: Vec<Vec<usize>> = Vec::new();
    let mut k: usize = 0;
    while k < stack.len()
        invariant
            n == accounts@.len(),
            claimed@.len() == n,
            k <= stack@.len(),
            rungs@.len() == k,
            forall|a: int|
                0 <= a < n ==> claimed@[a] == claimed_before(stack@, k as int, accounts@[a]),
            forall|q: int|
                0 <= q < k ==> lists_exactly(
                    #[trigger] rungs@[q]@,
                    n as int,
                    |i: int| in_rung(stack@, q, accounts@[i]),
                ),
        decreases stack@.len() - k,
    {
        let mut members: Vec<usize> = Vec::new();
        let mut a: usize = 0;
        while a < n
            invariant
                n == accounts@.len(),
                claimed@.len() == n,
                k < stack@.len(),
                a <= n,
                forall|b: int|
                    0 <= b < a ==> claimed@[b] == claimed_before(
                        stack@,
                        k + 1,
                        accounts@[b],
                    ),
                forall|b: int|
                    a <= b < n ==> claimed@[b] == claimed_before(stack@, k as int, accounts@[b]),
                forall|x: int, y: int|
                    0 <= x < y < members@.len() ==> members@[x] < members@[y],
                forall|x: int|
                    0 <= x < members@.len() ==> members@[x] < a && in_rung(
                        stack@,
                        k as int,
                        accounts@[members@[x] as int],
                    ),
                forall|b: int|
                    0 <= b < a && in_rung(stack@, k as int, accounts@[b]) ==> members@.contains(
                        b as usize,
                    ),
            decreases n - a,
        {
            let hit = source_names(&stack[k], &accounts[a]);
            let ghost prev = members@;
            proof {
                assert(claimed_before(stack@, k + 1, accounts@[a as int]) == (claimed_before(
                    stack@,
                    k as int,
                    accounts@[a as int],
                ) || names(stack@[k as int], accounts@[a as int])));
            }
            if !claimed[a] && hit {
                members.push(a);
                claimed.set(a, true);
                proof {
                    assert(members@[members@.len() - 1] == a);
                }
            }
            proof {
                assert forall|b: int|
                    0 <= b < a + 1 && in_rung(stack@, k as int, accounts@[b]) implies members@.contains(
                    b as usize,
                ) by {
                    if b == a {
                        assert(members@[members@.len() - 1] == a);
                    } else {
                        assert(prev.contains(b as usize));
                        let w = choose|w: int| 0 <= w < prev.len() && prev[w] == b as usize;
                        assert(members@[w] == b as usize);
                    }
                }
            }
            a = a + 1;
        }
        let ghost before = rungs@;
        rungs.push(members);
        proof {
            assert forall|q: int|
                0 <= q < k + 1 implies lists_exactly(
                #[trigger] rungs@[q]@,
                n as int,
                |i: int| in_rung(stack@, q, accounts@[i]),
            ) by {
                if q < k {
                    assert(rungs@[q] == before[q]);
                }
            }
        }
        k = k + 1;
    }
    let mut unlisted: Vec<usize> = Vec::new();
    let mut a: usize = 0;
    while a < n
        invariant
            n == accounts@.len(),
            claimed@.len() == n,
            k == stack@.len(),
            a <= n,
            forall|b: int|
                0 <= b < n ==> claimed@[b] == claimed_before(stack@, k as int, accounts@[b]),
            forall|x: int, y: int| 0 <= x < y < unlisted@.len() ==> unlisted@[x] < unlisted@[y],
            forall|x: int|
                0 <= x < unlisted@.len() ==> unlisted@[x] < a && !claimed_before(
                    stack@,
                    k as int,
                    accounts@[unlisted@[x] as int],
                ),
            forall|b: int|
                0 <= b < a && !claimed_before(stack@, k as int, accounts@[b])
                    ==> unlisted@.contains(b as usize),
        decreases n - a,
    {
        let ghost prev = unlisted@;
        if !claimed[a] {
            unlisted.push(a);
        }
        proof {
            assert forall|b: int|
                0 <= b < a + 1 && !claimed_before(stack@, k as int, accounts@[b])
                    implies unlisted@.contains(b as usize) by {
                if b == a {
                    assert(unlisted@[unlisted@.len() - 1] == a);
                } else {
                    assert(prev.contains(b as usize));
                    let w = choose|w: int| 0 <= w < prev.len() && prev[w] == b as usize;
                    assert(unlisted@[w] == b as usize);
                }
            }
        }
        a = a + 1;
    }
    (rungs, unlisted)
}


/// The month a phase starts, or `None` when it names a person no longer in
/// the plan.
pub open spec fn phase_start_month(t: Timeline, start: PhaseStart) -> Option<YearMonth> {
    match start {
        PhaseStart::Boundary(b) => t.spec_resolve(b, t.sim_config.start, t.spec_end_month()),
        PhaseStart::PenaltyFree(id) => if t.lacks(id) {
            None
        } else {
            Some(t.people@[t.first_index(id)].birth.plus_months(PENALTY_FREE_AGE_MONTHS as int))
        },
    }
}

/// `p` is phase `p.source` of `phases`, resolved.
pub open spec fn resolves_from(
    t: Timeline,
    phases: Seq<PhaseSpec>,
    accounts: Seq<AccountFacts>,
    p: ResolvedPhase,
) -> bool {
    let spec = phases[p.source as int];
    &&& p.source < phases.len()
    &&& phase_start_month(t, spec.start) == Some(p.start)
    &&& p.id@ == spec.id@
    &&& p.rungs@.len() == spec.stack@.len()
    &&& forall|k: int|
        0 <= k < spec.stack@.len() ==> lists_exactly(
            #[trigger] p.rungs@[k]@,
            accounts.len() as int,
            |i: int| in_rung(spec.stack@, k, accounts[i]),
        )
    &&& lists_exactly(
        p.unlisted@,
        accounts.len() as int,
        |i: int| !claimed_before(spec.stack@, spec.stack@.len() as int, accounts[i]),
    )
}

/// Phases run in order of their start months, and in list order within a
/// month.
pub open spec fn runs_before(a: ResolvedPhase, b: ResolvedPhase) -> bool {
    lex_before(a.start, b.start) || (a.start == b.start && a.source < b.source)
}

/// The phases in start order (non-decreasing, by year then month).
pub open spec fn in_start_order(phases: Seq<ResolvedPhase>) -> bool {
    forall|a: int, b: int| 0 <= a < b < phases.len() ==> !lex_before(phases[b].start, phases[a].start)
}

fn resolve_phase_start(
    t: &Timeline,
    start: &PhaseStart,
    plan_start: YearMonth,
    plan_end: YearMonth,
) -> (r: Option<YearMonth>)
    requires
        plan_start == t.sim_config.start,
        plan_end == t.spec_end_month(),
    ensures
        r == phase_start_month(*t, *start),
{
    match start {
        PhaseStart::Boundary(b) => t.resolve_boundary(b, plan_start, plan_end),
        PhaseStart::PenaltyFree(id) => match t.person_index(id) {
            Some(i) => {
                proof {
                    crate::plan::lemma_first_with_id_unique(t.people@, *id, i as int);
                }
                Some(t.people[i].penalty_free_month())
            },
            None => None,
        },
    }
}

/// The phases are in run order: by start month, and by list position
/// within a month.
pub open spec fn in_run_order(s: Seq<ResolvedPhase>) -> bool {
    forall|a: int, b: int| 0 <= a < b < s.len() ==> runs_before(s[a], s[b])
}

/// Inserts `p` after every phase that starts no later than it, which keeps
/// a list in run order when `p` was listed after all of them. Returns where
/// it went.
fn insert_in_run_order(out: &mut Vec<ResolvedPhase>, p: ResolvedPhase) -> (i: usize)
    requires
        in_run_order(old(out)@),
        forall|k: int| 0 <= k < old(out)@.len() ==> (#[trigger] old(out)@[k]).source < p.source,
    ensures
        i <= old(out)@.len(),
        final(out)@ == old(out)@.insert(i as int, p),
        in_run_order(final(out)@),
{
    let ghost before = out@;
    let mut i: usize = 0;
    while i < out.len() && !crate::plan::is_lex_before(p.start, out[i].start)
        invariant
            out@ == before,
            i <= out@.len(),
            forall|k: int| 0 <= k < i ==> !lex_before(p.start, (#[trigger] out@[k]).start),
        decreases out@.len() - i,
    {
        i = i + 1;
    }
    proof {
        assert forall|k: int| i <= k < before.len() implies lex_before(p.start, (#[trigger] before[k]).start) by {
            if k > i {
                assert(runs_before(before[i as int], before[k]));
            }
        }
    }
    out.insert(i, p);
    proof {
        before.insert_ensures(i as int, p);
        let after = out@;
        assert forall|a: int, b: int| 0 <= a < b < after.len() implies runs_before(after[a], after[b]) by {
            if b < i {
                assert(after[a] == before[a] && after[b] == before[b]);
            } else if b == i {
                assert(after[a] == before[a]);
                assert(!lex_before(p.start, before[a].start));
                assert(before[a].source < p.source);
            } else if a < i {
                assert(after[a] == before[a] && after[b] == before[b - 1]);
                assert(runs_before(before[a], before[b - 1]));
            } else if a == i {
                assert(after[b] == before[b - 1]);
                assert(lex_before(p.start, before[b - 1].start));
            } else {
                assert(after[a] == before[a - 1] && after[b] == before[b - 1]);
                assert(runs_before(before[a - 1], before[b - 1]));
            }
        }
    }
    i
}

/// Resolves the plan's phases: each one's start month and stack, dropping
/// any whose start names a person no longer in the plan, in the order they
/// run.
pub fn resolve_phases(t: &Timeline, phases: &Vec<PhaseSpec>, accounts: &Vec<AccountFacts>) -> (r:
    Vec<ResolvedPhase>)
    ensures
        forall|k: int| 0 <= k < r@.len() ==> resolves_from(*t, phases@, accounts@, #[trigger] r@[k]),
        forall|a: int, b: int| 0 <= a < b < r@.len() ==> runs_before(r@[a], r@[b]),
        forall|j: int|
            0 <= j < phases@.len() && (#[trigger] phase_start_month(*t, phases@[j].start)) is Some
                ==> exists|k: int| 0 <= k < r@.len() && r@[k].source == j,
{
    let plan_start = t.sim_config.start;
    let plan_end = t.end_month();
    let mut out: Vec<ResolvedPhase> = Vec::new();
    let mut j: usize = 0;
    while j < phases.len()
        invariant
            j <= phases@.len(),
            plan_start == t.sim_config.start,
            plan_end == t.spec_end_month(),
            forall|k: int|
                0 <= k < out@.len() ==> resolves_from(*t, phases@, accounts@, #[trigger] out@[k])
                    && out@[k].source < j,
            in_run_order(out@),
            forall|q: int|
                0 <= q < j && (#[trigger] phase_start_month(*t, phases@[q].start)) is Some
                    ==> exists|k: int| 0 <= k < out@.len() && out@[k].source == q,
        decreases phases@.len() - j,
    {
        let phase = &phases[j];
        match resolve_phase_start(t, &phase.start, plan_start, plan_end) {
            Some(start) => {
                let (rungs, unlisted) = resolve_stack(&phase.stack, accounts);
                let resolved = ResolvedPhase {
                    source: j,
                    id: phase.id.clone(),
                    start,
                    rungs,
                    unlisted,
                };
                let ghost prev = out@;
                let i = insert_in_run_order(&mut out, resolved);
                proof {
                    prev.insert_ensures(i as int, resolved);
                    assert forall|k: int| 0 <= k < out@.len() implies resolves_from(
                        *t,
                        phases@,
                        accounts@,
                        #[trigger] out@[k],
                    ) && out@[k].source < j + 1 by {
                        if k < i {
                            assert(out@[k] == prev[k]);
                        } else if k > i {
                            assert(out@[k] == prev[k - 1]);
                        }
                    }
                    assert forall|q: int|
                        0 <= q < j + 1 && (#[trigger] phase_start_month(*t, phases@[q].start)) is Some
                            implies exists|k: int| 0 <= k < out@.len() && out@[k].source == q by {
                        if q < j {
                            let k = choose|k: int| 0 <= k < prev.len() && prev[k].source == q;
                            if k < i {
                                assert(out@[k] == prev[k]);
                            } else {
                                assert(out@[k + 1] == prev[k]);
                            }
                        } else {
                            assert(out@[i as int].source == q);
                        }
                    }
                }
            },
            None => {},
        }
        j = j + 1;
    }
    out
}

/// Whether phase `i` is in force in `month`: the last to start on or
/// before it, or the first when none has started yet.
pub open spec fn in_force(phases: Seq<ResolvedPhase>, month: YearMonth, i: int) -> bool {
    &&& 0 <= i < phases.len()
    &&& if !lex_before(month, phases[i].start) {
        forall|k: int| i < k < phases.len() ==> lex_before(month, (#[trigger] phases[k]).start)
    } else {
        i == 0 && forall|k: int| 0 <= k < phases.len() ==> lex_before(month, (#[trigger] phases[k]).start)
    }
}

/// The phase in force in `month`: the last to start on or before it. The
/// first phase starts at plan start, so it also covers anything earlier.
pub fn phase_at(phases: &Vec<ResolvedPhase>, month: YearMonth) -> (r: Option<usize>)
    ensures
        match r {
            Some(i) => in_force(phases@, month, i as int),
            None => phases@.len() == 0,
        },
{
    let mut i: usize = phases.len();
    while i > 0
        invariant
            i <= phases@.len(),
            forall|k: int| i <= k < phases@.len() ==> lex_before(month, phases@[k].start),
        decreases i,
    {
        if !crate::plan::is_lex_before(month, phases[i - 1].start) {
            return Some(i - 1);
        }
        i = i - 1;
    }
    if phases.len() == 0 {
        None
    } else {
        Some(0)
    }
}

/// Where the phase in force from some month hands over: the next phase's
/// start, or `end` if that comes first.
pub open spec fn hand_over(phases: Seq<ResolvedPhase>, i: int, end: YearMonth) -> YearMonth {
    if i + 1 < phases.len() {
        if lex_before(end, phases[i + 1].start) {
            end
        } else {
            phases[i + 1].start
        }
    } else {
        end
    }
}

/// The phases `[start, end)` falls in, each with the months it covers:
/// consecutive stretches from `start` to `end`, each run by the phase in
/// force at its first month until that phase hands over.
pub fn segments(phases: &Vec<ResolvedPhase>, start: YearMonth, end: YearMonth) -> (r: Vec<(usize, YearMonth, YearMonth)>)
    requires
        in_start_order(phases@),
    ensures
        (phases@.len() == 0 || !lex_before(start, end)) ==> r@.len() == 0,
        phases@.len() > 0 && lex_before(start, end) ==> {
            &&& r@.len() > 0
            &&& r@[0].1 == start
            &&& r@[r@.len() - 1].2 == end
        },
        forall|k: int|
            0 <= k < r@.len() ==> {
                &&& in_force(phases@, r@[k].1, r@[k].0 as int)
                &&& r@[k].2 == hand_over(phases@, r@[k].0 as int, end)
                &&& lex_before(r@[k].1, r@[k].2)
            },
        forall|k: int| 0 <= k < r@.len() - 1 ==> r@[k].2 == r@[k + 1].1,
{
    let mut out: Vec<(usize, YearMonth, YearMonth)> = Vec::new();
    if phases.len() == 0 {
        return out;
    }
    let mut from = start;
    while crate::plan::is_lex_before(from, end)
        invariant
            in_start_order(phases@),
            phases@.len() > 0,
            !lex_before(start, end) ==> out@.len() == 0,
            out@.len() == 0 ==> from == start,
            out@.len() > 0 ==> out@[0].1 == start && out@[out@.len() - 1].2 == from,
            lex_before(start, end) ==> !lex_before(end, from),
            forall|k: int|
                0 <= k < out@.len() ==> {
                    &&& in_force(phases@, out@[k].1, out@[k].0 as int)
                    &&& out@[k].2 == hand_over(phases@, out@[k].0 as int, end)
                    &&& lex_before(out@[k].1, out@[k].2)
                },
            forall|k: int| 0 <= k < out@.len() - 1 ==> out@[k].2 == out@[k + 1].1,
        decreases end.year - from.year, 256 - from.month,
    {
        let i = match phase_at(phases, from) {
            Some(i) => i,
            None => {
                return out;
            },
        };
        let to = if i < phases.len() - 1 {
            let next = phases[i + 1].start;
            if crate::plan::is_lex_before(end, next) {
                end
            } else {
                next
            }
        } else {
            end
        };
        proof {
            if i + 1 < phases@.len() {
                if !lex_before(from, phases@[i as int].start) {
                    assert(lex_before(from, phases@[i + 1].start));
                } else {
                    assert(!lex_before(phases@[1].start, phases@[0].start));
                }
            }
        }
        out.push((i, from, to));
        from = to;
    }
    proof {
        if phases@.len() > 0 && lex_before(start, end) {
            assert(!lex_before(from, end));
            assert(from == end);
        }
    }
    out
}

/// An account is drawn by at most one entry of a stack: the first that
/// names it.
pub proof fn lemma_drawn_by_one_entry(stack: Seq<StackSource>, account: AccountFacts, k1: int, k2: int)
    requires
        0 <= k1 < stack.len(),
        0 <= k2 < stack.len(),
        in_rung(stack, k1, account),
        in_rung(stack, k2, account),
    ensures
        k1 == k2,
{
    if k1 < k2 {
        assert(claimed_before(stack, k2, account));
    } else if k2 < k1 {
        assert(claimed_before(stack, k1, account));
    }
}

/// Every account is either drawn by an entry of the stack or left to the
/// fallback, and not both.
pub proof fn lemma_drawn_or_fallback(stack: Seq<StackSource>, account: AccountFacts)
    ensures
        !claimed_before(stack, stack.len() as int, account) <==> forall|k: int|
            0 <= k < stack.len() ==> !#[trigger] in_rung(stack, k, account),
{
    if claimed_before(stack, stack.len() as int, account) {
        let j = choose|j: int| 0 <= j < stack.len() && names(#[trigger] stack[j], account);
        lemma_first_naming_entry(stack, account, j);
    }
}

proof fn lemma_first_naming_entry(stack: Seq<StackSource>, account: AccountFacts, j: int)
    requires
        0 <= j < stack.len(),
        names(stack[j], account),
    ensures
        exists|k: int| 0 <= k <= j && in_rung(stack, k, account),
    decreases j,
{
    if claimed_before(stack, j, account) {
        let i = choose|i: int| 0 <= i < j && names(#[trigger] stack[i], account);
        lemma_first_naming_entry(stack, account, i);
    } else {
        assert(in_rung(stack, j, account));
    }
}

/// The fallback drains money in tax order: within the same penalty status,
/// savings before taxable before pre-tax before Roth before HSA, each kind
/// strictly ahead of the next; and every penalty-free account ahead of every
/// penalized one.
pub proof fn lemma_fallback_follows_tax_order(penalized: bool, a: AccountKind, b: AccountKind)
    ensures
        fallback_position(AccountKind::Savings) < fallback_position(AccountKind::Taxable),
        fallback_position(AccountKind::Taxable) < fallback_position(AccountKind::TraditionalPreTax),
        fallback_position(AccountKind::TraditionalPreTax) < fallback_position(AccountKind::Roth),
        fallback_position(AccountKind::Roth) < fallback_position(AccountKind::Hsa),
        0 <= fallback_position(a) < 5,
        fallback_rank(false, a) < fallback_rank(true, b),
        fallback_rank(penalized, a) < fallback_rank(penalized, b) <==> fallback_position(a)
            < fallback_position(b),
        fallback_position(a) == fallback_position(b) ==> a == b,
        0 <= fallback_rank(penalized, a) < 10,
{
}

} // verus!
