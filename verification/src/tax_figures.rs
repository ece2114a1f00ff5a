//! Checks on the yearly tax figures — the federal deductions and bracket
//! schedules and the contribution limits — that a user edits by hand when
//! the IRS publishes a new year. Every problem is reported as a sentence
//! that names the figure.
use vstd::prelude::*;

use crate::text::{decimal, push_decimal, push_digits, push_str, text};
use crate::validation::{MAX_YEAR, MIN_YEAR};

verus! {

/// What the checks read of one amount: whether it is a finite number no
/// less than zero, and how it is written.
#[derive(Clone, Debug)]
pub struct AmountCheck {
    pub usable: bool,
    pub shown: String,
}

/// What the checks read of a bracket's ceiling: whether it is finite, an
/// integer key that orders ceilings as their amounts are ordered (equal
/// amounts, equal keys; zero's key is 0), and how it is written.
#[derive(Clone, Debug)]
pub struct CeilingCheck {
    pub finite: bool,
    pub key: i64,
    pub shown: String,
}

/// What the checks read of one bracket: its ceiling, if it has one, and
/// whether its rate lies in 0..=1, and how the rate is written.
#[derive(Clone, Debug)]
pub struct RungCheck {
    pub up_to: Option<CeilingCheck>,
    pub rate_in_range: bool,
    pub rate_shown: String,
}

/// What the checks read of one filing status's federal figures.
#[derive(Clone, Debug)]
pub struct StatusFiguresCheck {
    pub standard_deduction: AmountCheck,
    pub additional_standard_deduction_65: AmountCheck,
    pub ordinary_brackets: Vec<RungCheck>,
    pub capital_gains_brackets: Vec<RungCheck>,
}

/// What the checks read of each contribution limit.
#[derive(Clone, Debug)]
pub struct LimitsCheck {
    pub employer_plan: AmountCheck,
    pub employer_plan_catch_up_50: AmountCheck,
    pub employer_plan_catch_up_60_63: AmountCheck,
    pub ira: AmountCheck,
    pub ira_catch_up_50: AmountCheck,
    pub annual_additions: AmountCheck,
    pub plan_457b: AmountCheck,
    pub hsa: AmountCheck,
    pub sep_ira: AmountCheck,
    pub simple_ira: AmountCheck,
    pub simple_ira_catch_up_50: AmountCheck,
    pub simple_ira_catch_up_60_63: AmountCheck,
}

/// What the checks read of one tax year's figures.
#[derive(Clone, Debug)]
pub struct TaxFiguresCheck {
    pub tax_year: i32,
    pub single: StatusFiguresCheck,
    pub married_filing_jointly: StatusFiguresCheck,
    pub contribution_limits: LimitsCheck,
}

/// The messages' texts, in order.
pub open spec fn messages(errors: Seq<String>) -> Seq<Seq<char>> {
    errors.map_values(|e: String| e@)
}

/// The error an amount gets: one when it is negative or not finite.
#[verifier::opaque]
pub open spec fn amount_errors(name: Seq<char>, a: AmountCheck) -> Seq<Seq<char>> {
    if a.usable {
        Seq::empty()
    } else {
        seq![name + " must be zero or more, not "@ + a.shown@]
    }
}

/// The ceiling errors of the first `k` brackets, read in order, with the
/// key and text of the last ceiling that rose above the one before it
/// (zero, written "0", before any has).
pub open spec fn ceiling_walk(name: Seq<char>, rungs: Seq<RungCheck>, k: int) -> (
    Seq<Seq<char>>,
    int,
    Seq<char>,
)
    decreases k,
{
    if k <= 0 {
        (Seq::empty(), 0, "0"@)
    } else {
        let w = ceiling_walk(name, rungs, k - 1);
        match rungs[k - 1].up_to {
            None => (
                w.0.push(
                    name + ": only the last bracket may have `up_to: null` (bracket "@ + decimal(k)
                        + ")"@,
                ),
                w.1,
                w.2,
            ),
            Some(c) => if !c.finite || c.key <= w.1 {
                (
                    w.0.push(
                        name + ": bracket "@ + decimal(k) + " ceiling "@ + c.shown@
                            + " must be above "@ + w.2,
                    ),
                    w.1,
                    w.2,
                )
            } else {
                (w.0, c.key as int, c.shown@)
            },
        }
    }
}

/// The rate errors of the first `k` brackets.
pub open spec fn rate_errors(name: Seq<char>, rungs: Seq<RungCheck>, k: int) -> Seq<Seq<char>>
    decreases k,
{
    if k <= 0 {
        Seq::empty()
    } else {
        rate_errors(name, rungs, k - 1) + if rungs[k - 1].rate_in_range {
            Seq::empty()
        } else {
            seq![
                name + ": bracket "@ + decimal(k) + " rate "@ + rungs[k - 1].rate_shown@
                    + " must be between 0 and 1 (0.22 means 22%)"@,
            ]
        }
    }
}

/// The errors of a bracket schedule: none at all, or a ceiling on the last
/// bracket, then each earlier bracket's missing or non-rising ceiling, then
/// each rate outside 0..=1.
pub open spec fn schedule_errors(name: Seq<char>, rungs: Seq<RungCheck>) -> Seq<Seq<char>> {
    if rungs.len() == 0 {
        seq![name + " has no brackets"@]
    } else {
        (if rungs.last().up_to is Some {
            seq![name + ": the last bracket must have `up_to: null` (no ceiling)"@]
        } else {
            Seq::empty()
        }) + ceiling_walk(name, rungs, rungs.len() - 1).0 + rate_errors(
            name,
            rungs,
            rungs.len() as int,
        )
    }
}

/// The errors of one filing status's figures, `label` naming the status.
pub open spec fn status_errors(label: Seq<char>, s: StatusFiguresCheck) -> Seq<Seq<char>> {
    amount_errors("standard_deduction."@ + label, s.standard_deduction) + amount_errors(
        "additional_standard_deduction_65."@ + label,
        s.additional_standard_deduction_65,
    ) + schedule_errors("ordinary_brackets."@ + label, s.ordinary_brackets@) + schedule_errors(
        "capital_gains_brackets."@ + label,
        s.capital_gains_brackets@,
    )
}

/// The errors of the contribution limits, in the order they are listed.
pub open spec fn limits_errors(l: LimitsCheck) -> Seq<Seq<char>> {
    amount_errors("contribution_limits.employer_plan"@, l.employer_plan) + amount_errors(
        "contribution_limits.employer_plan_catch_up_50"@,
        l.employer_plan_catch_up_50,
    ) + amount_errors(
        "contribution_limits.employer_plan_catch_up_60_63"@,
        l.employer_plan_catch_up_60_63,
    ) + amount_errors("contribution_limits.ira"@, l.ira) + amount_errors(
        "contribution_limits.ira_catch_up_50"@,
        l.ira_catch_up_50,
    ) + amount_errors("contribution_limits.annual_additions"@, l.annual_additions)
        + amount_errors("contribution_limits.plan_457b"@, l.plan_457b) + amount_errors(
        "contribution_limits.hsa"@,
        l.hsa,
    ) + amount_errors("contribution_limits.sep_ira"@, l.sep_ira) + amount_errors(
        "contribution_limits.simple_ira"@,
        l.simple_ira,
    ) + amount_errors("contribution_limits.simple_ira_catch_up_50"@, l.simple_ira_catch_up_50)
        + amount_errors(
        "contribution_limits.simple_ira_catch_up_60_63"@,
        l.simple_ira_catch_up_60_63,
    )
}

/// Everything wrong with a year's figures, in the order it is reported:
/// the tax year, the single filer's figures, the joint filers', and the
/// contribution limits.
pub open spec fn figures_errors(f: TaxFiguresCheck) -> Seq<Seq<char>> {
    (if MIN_YEAR <= f.tax_year <= MAX_YEAR {
        Seq::empty()
    } else {
        seq!["tax_year "@ + decimal(f.tax_year as int) + " is not a plausible year"@]
    }) + status_errors("single"@, f.single) + status_errors(
        "married_filing_jointly"@,
        f.married_filing_jointly,
    ) + limits_errors(f.contribution_limits)
}

fn push_message(errors: &mut Vec<String>, m: String)
    ensures
        messages(final(errors)@) == messages(old(errors)@).push(m@),
{
    let ghost before = errors@;
    let ghost added = m@;
    errors.push(m);
    proof {
        assert(messages(errors@) =~= messages(before).push(added));
    }
}

/// `a` followed by `b`.
fn joined(a: &str, b: &str) -> (r: String)
    ensures
        r@ == a@ + b@,
{
    let mut s = text(a);
    push_str(&mut s, b);
    s
}

/// Appends the error `a` gets under `name`.
fn check_amount(errors: &mut Vec<String>, name: String, a: &AmountCheck)
    ensures
        messages(final(errors)@) == messages(old(errors)@) + amount_errors(name@, *a),
{
    let ghost before = messages(errors@);
    proof {
        reveal(amount_errors);
    }
    if !a.usable {
        let mut m = name;
        push_str(&mut m, " must be zero or more, not ");
        push_str(&mut m, a.shown.as_str());
        push_message(errors, m);
    }
    proof {
        assert(messages(errors@) =~= before + amount_errors(name@, *a));
    }
}

/// `name`, then `middle`, then the bracket number `k`.
fn about_bracket(name: &String, middle: &str, k: usize) -> (r: String)
    ensures
        r@ == name@ + middle@ + decimal(k as int),
{
    let mut m = text(name.as_str());
    push_str(&mut m, middle);
    push_digits(&mut m, k as u64);
    m
}

/// Appends the ceiling errors of every bracket but the last.
fn check_ceilings(errors: &mut Vec<String>, name: &String, rungs: &Vec<RungCheck>)
    requires
        rungs@.len() > 0,
    ensures
        messages(final(errors)@) == messages(old(errors)@) + ceiling_walk(
            name@,
            rungs@,
            rungs@.len() - 1,
        ).0,
{
    proof {
        reveal_strlit("0");
    }
    let ghost head = messages(errors@);
    let n = rungs.len();
    let mut previous_key: i64 = 0;
    let mut previous_shown = text("0");
    let mut i: usize = 0;
    proof {
        assert(messages(errors@) =~= head + ceiling_walk(name@, rungs@, 0).0);
    }
    while i < n - 1
        invariant
            n == rungs@.len(),
            n > 0,
            i <= n - 1,
            messages(errors@) == head + ceiling_walk(name@, rungs@, i as int).0,
            previous_key == ceiling_walk(name@, rungs@, i as int).1,
            previous_shown@ == ceiling_walk(name@, rungs@, i as int).2,
        decreases n - 1 - i,
    {
        match &rungs[i].up_to {
            None => {
                let mut m = about_bracket(
                    name,
                    ": only the last bracket may have `up_to: null` (bracket ",
                    i + 1,
                );
                push_str(&mut m, ")");
                push_message(errors, m);
            },
            Some(c) => {
                if !c.finite || c.key <= previous_key {
                    let mut m = about_bracket(name, ": bracket ", i + 1);
                    push_str(&mut m, " ceiling ");
                    push_str(&mut m, c.shown.as_str());
                    push_str(&mut m, " must be above ");
                    push_str(&mut m, previous_shown.as_str());
                    push_message(errors, m);
                } else {
                    previous_key = c.key;
                    previous_shown = c.shown.clone();
                }
            },
        }
        proof {
            assert(messages(errors@) =~= head + ceiling_walk(name@, rungs@, i + 1).0);
        }
        i = i + 1;
    }
}

/// Appends the rate errors of every bracket.
fn check_rates(errors: &mut Vec<String>, name: &String, rungs: &Vec<RungCheck>)
    ensures
        messages(final(errors)@) == messages(old(errors)@) + rate_errors(
            name@,
            rungs@,
            rungs@.len() as int,
        ),
{
    let ghost head = messages(errors@);
    let n = rungs.len();
    let mut i: usize = 0;
    proof {
        assert(messages(errors@) =~= head + rate_errors(name@, rungs@, 0));
    }
    while i < n
        invariant
            n == rungs@.len(),
            i <= n,
            messages(errors@) == head + rate_errors(name@, rungs@, i as int),
        decreases n - i,
    {
        let rung = &rungs[i];
        if !rung.rate_in_range {
            let mut m = about_bracket(name, ": bracket ", i + 1);
            push_str(&mut m, " rate ");
            push_str(&mut m, rung.rate_shown.as_str());
            push_str(&mut m, " must be between 0 and 1 (0.22 means 22%)");
            push_message(errors, m);
        }
        proof {
            assert(messages(errors@) =~= head + rate_errors(name@, rungs@, i + 1));
        }
        i = i + 1;
    }
}

/// Appends the errors of the bracket schedule `rungs`, named `name`.
fn check_schedule(errors: &mut Vec<String>, name: String, rungs: &Vec<RungCheck>)
    ensures
        messages(final(errors)@) == messages(old(errors)@) + schedule_errors(name@, rungs@),
{
    let ghost head = messages(errors@);
    let n = rungs.len();
    if n == 0 {
        let mut m = text(name.as_str());
        push_str(&mut m, " has no brackets");
        push_message(errors, m);
        proof {
            assert(messages(errors@) =~= head + schedule_errors(name@, rungs@));
        }
        return;
    }
    if rungs[n - 1].up_to.is_some() {
        let mut m = text(name.as_str());
        push_str(&mut m, ": the last bracket must have `up_to: null` (no ceiling)");
        push_message(errors, m);
    }
    let ghost last = messages(errors@);
    check_ceilings(errors, &name, rungs);
    check_rates(errors, &name, rungs);
    proof {
        assert(last =~= head + (if rungs@.last().up_to is Some {
            seq![name@ + ": the last bracket must have `up_to: null` (no ceiling)"@]
        } else {
            Seq::empty()
        }));
        assert(messages(errors@) =~= head + schedule_errors(name@, rungs@));
    }
}

/// Appends the errors of one filing status's figures.
fn check_status(errors: &mut Vec<String>, label: &str, s: &StatusFiguresCheck)
    ensures
        messages(final(errors)@) == messages(old(errors)@) + status_errors(label@, *s),
{
    let ghost head = messages(errors@);
    check_amount(errors, joined("standard_deduction.", label), &s.standard_deduction);
    check_amount(
        errors,
        joined("additional_standard_deduction_65.", label),
        &s.additional_standard_deduction_65,
    );
    check_schedule(errors, joined("ordinary_brackets.", label), &s.ordinary_brackets);
    check_schedule(errors, joined("capital_gains_brackets.", label), &s.capital_gains_brackets);
    proof {
        assert(messages(errors@) =~= head + status_errors(label@, *s));
    }
}

/// Appends the errors of the contribution limits.
fn check_limits(errors: &mut Vec<String>, l: &LimitsCheck)
    ensures
        messages(final(errors)@) == messages(old(errors)@) + limits_errors(*l),
{
    let ghost head = messages(errors@);
    check_amount(errors, text("contribution_limits.employer_plan"), &l.employer_plan);
    check_amount(
        errors,
        text("contribution_limits.employer_plan_catch_up_50"),
        &l.employer_plan_catch_up_50,
    );
    check_amount(
        errors,
        text("contribution_limits.employer_plan_catch_up_60_63"),
        &l.employer_plan_catch_up_60_63,
    );
    check_amount(errors, text("contribution_limits.ira"), &l.ira);
    check_amount(errors, text("contribution_limits.ira_catch_up_50"), &l.ira_catch_up_50);
    check_amount(errors, text("contribution_limits.annual_additions"), &l.annual_additions);
    check_amount(errors, text("contribution_limits.plan_457b"), &l.plan_457b);
    check_amount(errors, text("contribution_limits.hsa"), &l.hsa);
    check_amount(errors, text("contribution_limits.sep_ira"), &l.sep_ira);
    check_amount(errors, text("contribution_limits.simple_ira"), &l.simple_ira);
    check_amount(
        errors,
        text("contribution_limits.simple_ira_catch_up_50"),
        &l.simple_ira_catch_up_50,
    );
    check_amount(
        errors,
        text("contribution_limits.simple_ira_catch_up_60_63"),
        &l.simple_ira_catch_up_60_63,
    );
    proof {
        assert(messages(errors@) =~= head + limits_errors(*l));
    }
}

impl TaxFiguresCheck {
    /// Everything wrong with a hand-edited year of figures, as sentences
    /// for the user, in the order of [`figures_errors`]. Empty means
    /// usable.
    pub fn validate(&self) -> (r: Vec<String>)
        ensures
            messages(r@) == figures_errors(*self),
    {
        let mut errors: Vec<String> = Vec::new();
        if !(MIN_YEAR <= self.tax_year && self.tax_year <= MAX_YEAR) {
            let mut m = text("tax_year ");
            push_decimal(&mut m, self.tax_year as i64);
            push_str(&mut m, " is not a plausible year");
            push_message(&mut errors, m);
        }
        let ghost year = messages(errors@);
        check_status(&mut errors, "single", &self.single);
        check_status(&mut errors, "married_filing_jointly", &self.married_filing_jointly);
        check_limits(&mut errors, &self.contribution_limits);
        proof {
            assert(year =~= if MIN_YEAR <= self.tax_year <= MAX_YEAR {
                Seq::empty()
            } else {
                seq!["tax_year "@ + decimal(self.tax_year as int) + " is not a plausible year"@]
            });
            assert(messages(errors@) =~= figures_errors(*self));
        }
        errors
    }
}

/// The first `k` brackets each have a finite ceiling above zero and above
/// the one before it.
pub open spec fn rising_ceilings(rungs: Seq<RungCheck>, k: int) -> bool {
    forall|i: int|
        0 <= i < k ==> {
            &&& (#[trigger] rungs[i]).up_to is Some
            &&& rungs[i].up_to->0.finite
            &&& rungs[i].up_to->0.key > if i == 0 {
                0
            } else {
                rungs[i - 1].up_to->0.key as int
            }
        }
}

/// A bracket schedule with nothing wrong in it: at least one bracket, the
/// last open-ended, every earlier one with a finite ceiling above zero and
/// above the one before it, and every rate in 0..=1.
pub open spec fn schedule_usable(rungs: Seq<RungCheck>) -> bool {
    &&& rungs.len() > 0
    &&& rungs.last().up_to is None
    &&& forall|i: int| 0 <= i < rungs.len() ==> (#[trigger] rungs[i]).rate_in_range
    &&& rising_ceilings(rungs, rungs.len() - 1)
}

/// One filing status's figures with nothing wrong in them.
pub open spec fn status_usable(s: StatusFiguresCheck) -> bool {
    &&& s.standard_deduction.usable
    &&& s.additional_standard_deduction_65.usable
    &&& schedule_usable(s.ordinary_brackets@)
    &&& schedule_usable(s.capital_gains_brackets@)
}

/// Every contribution limit usable.
pub open spec fn limits_usable(l: LimitsCheck) -> bool {
    &&& l.employer_plan.usable
    &&& l.employer_plan_catch_up_50.usable
    &&& l.employer_plan_catch_up_60_63.usable
    &&& l.ira.usable
    &&& l.ira_catch_up_50.usable
    &&& l.annual_additions.usable
    &&& l.plan_457b.usable
    &&& l.hsa.usable
    &&& l.sep_ira.usable
    &&& l.simple_ira.usable
    &&& l.simple_ira_catch_up_50.usable
    &&& l.simple_ira_catch_up_60_63.usable
}

proof fn lemma_ceiling_walk(name: Seq<char>, rungs: Seq<RungCheck>, k: int)
    requires
        0 <= k <= rungs.len(),
    ensures
        ceiling_walk(name, rungs, k).0.len() == 0 <==> rising_ceilings(rungs, k),
        rising_ceilings(rungs, k) ==> ceiling_walk(name, rungs, k).1 == if k == 0 {
            0
        } else {
            rungs[k - 1].up_to->0.key as int
        },
    decreases k,
{
    if k > 0 {
        lemma_ceiling_walk(name, rungs, k - 1);
        let w = ceiling_walk(name, rungs, k - 1);
        if rising_ceilings(rungs, k) {
            assert(rising_ceilings(rungs, k - 1));
            assert(rungs[k - 1].up_to is Some);
        }
        if ceiling_walk(name, rungs, k).0.len() == 0 {
            assert(w.0.len() == 0);
            assert forall|i: int| 0 <= i < k implies {
                &&& (#[trigger] rungs[i]).up_to is Some
                &&& rungs[i].up_to->0.finite
                &&& rungs[i].up_to->0.key > if i == 0 {
                    0
                } else {
                    rungs[i - 1].up_to->0.key as int
                }
            } by {
                if i < k - 1 {
                    assert(rising_ceilings(rungs, k - 1));
                }
            }
        }
    }
}

proof fn lemma_rate_errors(name: Seq<char>, rungs: Seq<RungCheck>, k: int)
    requires
        0 <= k <= rungs.len(),
    ensures
        rate_errors(name, rungs, k).len() == 0 <==> forall|i: int|
            0 <= i < k ==> (#[trigger] rungs[i]).rate_in_range,
    decreases k,
{
    if k > 0 {
        lemma_rate_errors(name, rungs, k - 1);
    }
}

/// A bracket schedule gets no error exactly when it is usable.
pub proof fn lemma_schedule_passes_when_usable(name: Seq<char>, rungs: Seq<RungCheck>)
    ensures
        schedule_errors(name, rungs).len() == 0 <==> schedule_usable(rungs),
{
    if rungs.len() > 0 {
        lemma_ceiling_walk(name, rungs, rungs.len() - 1);
        lemma_rate_errors(name, rungs, rungs.len() as int);
    }
}

/// A year's figures validate to no error at all exactly when they are
/// usable: the tax year plausible, every deduction and limit zero or more,
/// and every bracket schedule usable.
pub proof fn lemma_figures_pass_when_usable(f: TaxFiguresCheck)
    ensures
        figures_errors(f).len() == 0 <==> {
            &&& MIN_YEAR <= f.tax_year <= MAX_YEAR
            &&& status_usable(f.single)
            &&& status_usable(f.married_filing_jointly)
            &&& limits_usable(f.contribution_limits)
        },
{
    reveal(amount_errors);
    lemma_schedule_passes_when_usable(
        "ordinary_brackets."@ + "single"@,
        f.single.ordinary_brackets@,
    );
    lemma_schedule_passes_when_usable(
        "capital_gains_brackets."@ + "single"@,
        f.single.capital_gains_brackets@,
    );
    lemma_schedule_passes_when_usable(
        "ordinary_brackets."@ + "married_filing_jointly"@,
        f.married_filing_jointly.ordinary_brackets@,
    );
    lemma_schedule_passes_when_usable(
        "capital_gains_brackets."@ + "married_filing_jointly"@,
        f.married_filing_jointly.capital_gains_brackets@,
    );
}

} // verus!
