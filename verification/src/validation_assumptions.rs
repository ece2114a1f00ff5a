//! The state tax and market assumptions sections of a plan's validation.
use vstd::prelude::*;

use crate::text::{push_str, text};
use crate::validation::{
    bracket_shape, field_for, item_field, push_error, texts, BracketShape, ErrorText,
    ValidationError,
};
use crate::validation_accounts::one_if;

verus! {

/// What validation reads of a state bracket's ceiling: an integer key that
/// orders ceilings as their amounts are ordered (equal amounts, equal keys;
/// zero's key is 0), and whether the amount compares with others at all
/// (a NaN compares with nothing).
#[derive(Clone, Copy, Debug)]
pub struct ThresholdCheck {
    pub key: i64,
    pub comparable: bool,
}

/// What validation reads of one state tax bracket: whether its rate lies in
/// 0%..=100%, and its ceiling, if it has one.
#[derive(Clone, Copy, Debug)]
pub struct BracketCheck {
    pub rate_in_range: bool,
    pub up_to: Option<ThresholdCheck>,
}

/// What validation reads of the state tax schedule.
#[derive(Clone, Debug)]
pub struct StateTaxCheck {
    /// The standard deduction is below zero.
    pub negative_standard_deduction: bool,
    pub brackets: Vec<BracketCheck>,
}

/// What validation reads of the market and household assumptions: each
/// outcome of a range check on a rate, and for each return and volatility
/// figure its label and whether it is out of range.
#[derive(Clone, Debug)]
pub struct AssumptionsCheck {
    /// Inflation is -100% or lower.
    pub inflation_too_low: bool,
    /// The surviving household's spending share is outside 0%..=100%.
    pub survivor_expense_out_of_range: bool,
    /// The Social Security COLA is -100% or lower.
    pub social_security_cola_too_low: bool,
    /// Each return figure's label and whether it is -100% or lower.
    pub returns: Vec<(String, bool)>,
    /// Each volatility figure's label and whether it is outside 0%..=100%.
    pub volatility: Vec<(String, bool)>,
}

/// A ceiling as the ascending test remembers it: its key and whether it
/// compares.
pub type Remembered = (int, bool);

/// The errors of bracket `i` of `n`, `previous` being the ceiling of the
/// last bounded bracket before it (zero before any): its rate, then its
/// ceiling — one on the last bracket, one not above `previous`, and a
/// missing one before the last.
pub open spec fn bracket_errors(b: BracketCheck, i: int, n: int, previous: Remembered) -> Seq<
    ErrorText,
> {
    let up_to = item_field("assumptions.state_tax.brackets["@, i, "up_to"@);
    one_if(
        !b.rate_in_range,
        item_field("assumptions.state_tax.brackets["@, i, "rate"@),
        "Bracket rate must be between 0% and 100%."@,
    ) + match b.up_to {
        Some(c) => if i == n - 1 {
            seq![(up_to, "The last bracket must be unbounded."@)]
        } else {
            one_if(
                c.comparable && previous.1 && c.key <= previous.0,
                up_to,
                "Brackets must have strictly ascending thresholds."@,
            )
        },
        None => one_if(i != n - 1, up_to, "Only the last bracket may be unbounded."@),
    }
}

/// The ceiling remembered after bracket `i` of `n`: its own, when it has
/// one and is not the last.
pub open spec fn remembered_after(b: BracketCheck, i: int, n: int, previous: Remembered) -> Remembered {
    match b.up_to {
        Some(c) => if i == n - 1 {
            previous
        } else {
            (c.key as int, c.comparable)
        },
        None => previous,
    }
}

/// The errors of the first `k` brackets of `brackets`, read in order, and
/// the ceiling remembered after them.
pub open spec fn brackets_walk(brackets: Seq<BracketCheck>, k: int) -> (Seq<ErrorText>, Remembered)
    decreases k,
{
    if k <= 0 {
        (Seq::empty(), (0, true))
    } else {
        let w = brackets_walk(brackets, k - 1);
        let n = brackets.len() as int;
        (
            w.0 + bracket_errors(brackets[k - 1], k - 1, n, w.1),
            remembered_after(brackets[k - 1], k - 1, n, w.1),
        )
    }
}

/// The errors of the first `k` brackets of `brackets`.
pub open spec fn brackets_errors(brackets: Seq<BracketCheck>, k: int) -> Seq<ErrorText> {
    brackets_walk(brackets, k).0
}

/// The errors of the state tax schedule: a negative standard deduction, and
/// a schedule with no brackets or each bracket's.
pub open spec fn state_tax_errors(s: StateTaxCheck) -> Seq<ErrorText> {
    one_if(
        s.negative_standard_deduction,
        "assumptions.state_tax.standard_deduction"@,
        "State standard deduction can't be negative."@,
    ) + (if s.brackets@.len() == 0 {
        seq![("assumptions.state_tax.brackets"@, "State tax needs at least one bracket."@)]
    } else {
        brackets_errors(s.brackets@, s.brackets@.len() as int)
    })
}

/// The errors of the first `k` labelled figures: `field`, with the label
/// and `rest` as the message, for each one out of range.
pub open spec fn labelled_errors(figures: Seq<(String, bool)>, k: int, field: Seq<char>, rest: Seq<
    char,
>) -> Seq<ErrorText>
    decreases k,
{
    if k <= 0 {
        Seq::empty()
    } else {
        labelled_errors(figures, k - 1, field, rest) + one_if(
            figures[k - 1].1,
            field,
            figures[k - 1].0@ + rest,
        )
    }
}

/// The errors of the assumptions, in the order they are checked:
/// inflation, the survivor spending share, the Social Security COLA, each
/// return, each volatility.
pub open spec fn assumptions_errors(a: AssumptionsCheck) -> Seq<ErrorText> {
    one_if(a.inflation_too_low, "assumptions.inflation"@, "Inflation can't be -100% or lower."@)
        + one_if(
        a.survivor_expense_out_of_range,
        "assumptions.survivor_expense_factor"@,
        "Surviving-household spending must be between 0% and 100% of the household's."@,
    ) + one_if(
        a.social_security_cola_too_low,
        "assumptions.social_security_cola"@,
        "Social Security COLA can't be -100% or lower."@,
    ) + labelled_errors(
        a.returns@,
        a.returns@.len() as int,
        "assumptions.asset_returns"@,
        " return can't be -100% or lower."@,
    ) + labelled_errors(
        a.volatility@,
        a.volatility@.len() as int,
        "assumptions.asset_volatility"@,
        " volatility must be between 0% and 100%."@,
    )
}

fn check_bracket(
    errors: &mut Vec<ValidationError>,
    b: BracketCheck,
    i: usize,
    n: usize,
    previous: (i64, bool),
) -> (r: (i64, bool))
    requires
        i < n,
        i <= i64::MAX,
    ensures
        texts(final(errors)@) == texts(old(errors)@) + bracket_errors(
            b,
            i as int,
            n as int,
            (previous.0 as int, previous.1),
        ),
        (r.0 as int, r.1) == remembered_after(b, i as int, n as int, (previous.0 as int, previous.1)),
{
    let ghost before = texts(errors@);
    if !b.rate_in_range {
        push_error(
            errors,
            field_for("assumptions.state_tax.brackets[", i, "rate"),
            text("Bracket rate must be between 0% and 100%."),
        );
    }
    let ghost middle = texts(errors@);
    let mut remembered = previous;
    match bracket_shape(i, n, b.up_to.is_some()) {
        Some(BracketShape::LastIsBounded) => {
            push_error(
                errors,
                field_for("assumptions.state_tax.brackets[", i, "up_to"),
                text("The last bracket must be unbounded."),
            );
        },
        Some(BracketShape::EarlyUnbounded) => {
            push_error(
                errors,
                field_for("assumptions.state_tax.brackets[", i, "up_to"),
                text("Only the last bracket may be unbounded."),
            );
        },
        None => {
            if let Some(c) = b.up_to {
                if c.comparable && previous.1 && c.key <= previous.0 {
                    push_error(
                        errors,
                        field_for("assumptions.state_tax.brackets[", i, "up_to"),
                        text("Brackets must have strictly ascending thresholds."),
                    );
                }
                remembered = (c.key, c.comparable);
            }
        },
    }
    proof {
        assert(middle =~= before + one_if(
            !b.rate_in_range,
            item_field("assumptions.state_tax.brackets["@, i as int, "rate"@),
            "Bracket rate must be between 0% and 100%."@,
        ));
        assert(texts(errors@) =~= before + bracket_errors(
            b,
            i as int,
            n as int,
            (previous.0 as int, previous.1),
        ));
    }
    remembered
}

/// Appends the state tax schedule's errors.
pub fn check_state_tax(errors: &mut Vec<ValidationError>, s: &StateTaxCheck)
    requires
        s.brackets@.len() <= i64::MAX,
    ensures
        texts(final(errors)@) == texts(old(errors)@) + state_tax_errors(*s),
{
    let ghost before = texts(errors@);
    if s.negative_standard_deduction {
        push_error(
            errors,
            text("assumptions.state_tax.standard_deduction"),
            text("State standard deduction can't be negative."),
        );
    }
    let ghost head = texts(errors@);
    let n = s.brackets.len();
    if n == 0 {
        push_error(
            errors,
            text("assumptions.state_tax.brackets"),
            text("State tax needs at least one bracket."),
        );
    } else {
        let mut i: usize = 0;
        let mut previous: (i64, bool) = (0, true);
        proof {
            assert(texts(errors@) =~= head + brackets_errors(s.brackets@, 0));
        }
        while i < n
            invariant
                i <= n == s.brackets@.len() <= i64::MAX,
                texts(errors@) == head + brackets_errors(s.brackets@, i as int),
                (previous.0 as int, previous.1) == brackets_walk(s.brackets@, i as int).1,
            decreases n - i,
        {
            previous = check_bracket(errors, s.brackets[i], i, n, previous);
            proof {
                assert(texts(errors@) =~= head + brackets_errors(s.brackets@, i + 1));
            }
            i = i + 1;
        }
    }
    proof {
        assert(head =~= before + one_if(
            s.negative_standard_deduction,
            "assumptions.state_tax.standard_deduction"@,
            "State standard deduction can't be negative."@,
        ));
        assert(texts(errors@) =~= before + state_tax_errors(*s));
    }
}

fn check_labelled(
    errors: &mut Vec<ValidationError>,
    figures: &Vec<(String, bool)>,
    field: &str,
    rest: &str,
)
    ensures
        texts(final(errors)@) == texts(old(errors)@) + labelled_errors(
            figures@,
            figures@.len() as int,
            field@,
            rest@,
        ),
{
    let ghost before = texts(errors@);
    let mut k: usize = 0;
    proof {
        assert(texts(errors@) =~= before + labelled_errors(figures@, 0, field@, rest@));
    }
    while k < figures.len()
        invariant
            k <= figures@.len(),
            texts(errors@) == before + labelled_errors(figures@, k as int, field@, rest@),
        decreases figures@.len() - k,
    {
        let ghost prev = texts(errors@);
        if figures[k].1 {
            let mut message = figures[k].0.clone();
            push_str(&mut message, rest);
            push_error(errors, text(field), message);
        }
        proof {
            assert(texts(errors@) =~= prev + one_if(
                figures@[k as int].1,
                field@,
                figures@[k as int].0@ + rest@,
            ));
            assert(texts(errors@) =~= before + labelled_errors(figures@, k + 1, field@, rest@));
        }
        k = k + 1;
    }
}

/// Appends the assumptions' errors.
pub fn check_assumptions(errors: &mut Vec<ValidationError>, a: &AssumptionsCheck)
    ensures
        texts(final(errors)@) == texts(old(errors)@) + assumptions_errors(*a),
{
    let ghost s0 = texts(errors@);
    if a.inflation_too_low {
        push_error(
            errors,
            text("assumptions.inflation"),
            text("Inflation can't be -100% or lower."),
        );
    }
    let ghost s1 = texts(errors@);
    if a.survivor_expense_out_of_range {
        push_error(
            errors,
            text("assumptions.survivor_expense_factor"),
            text("Surviving-household spending must be between 0% and 100% of the household's."),
        );
    }
    let ghost s2 = texts(errors@);
    if a.social_security_cola_too_low {
        push_error(
            errors,
            text("assumptions.social_security_cola"),
            text("Social Security COLA can't be -100% or lower."),
        );
    }
    let ghost s3 = texts(errors@);
    check_labelled(errors, &a.returns, "assumptions.asset_returns", " return can't be -100% or lower.");
    let ghost s4 = texts(errors@);
    check_labelled(
        errors,
        &a.volatility,
        "assumptions.asset_volatility",
        " volatility must be between 0% and 100%.",
    );
    proof {
        assert(s1 =~= s0 + one_if(
            a.inflation_too_low,
            "assumptions.inflation"@,
            "Inflation can't be -100% or lower."@,
        ));
        assert(s2 =~= s1 + one_if(
            a.survivor_expense_out_of_range,
            "assumptions.survivor_expense_factor"@,
            "Surviving-household spending must be between 0% and 100% of the household's."@,
        ));
        assert(s3 =~= s2 + one_if(
            a.social_security_cola_too_low,
            "assumptions.social_security_cola"@,
            "Social Security COLA can't be -100% or lower."@,
        ));
        assert(texts(errors@) =~= s0 + assumptions_errors(*a));
    }
}

/// The ceiling bracket `i` has to rise above: zero for the first, else the
/// one before it.
pub open spec fn floor_below(brackets: Seq<BracketCheck>, i: int) -> int {
    if i == 0 {
        0
    } else {
        brackets[i - 1].up_to->0.key as int
    }
}

/// Bracket `i` of a schedule is as it should be: its rate in 0%..=100%, no
/// ceiling if it is the last, and otherwise a ceiling above the one before
/// it (above zero, for the first).
pub open spec fn bracket_ok(brackets: Seq<BracketCheck>, i: int) -> bool {
    &&& brackets[i].rate_in_range
    &&& if i == brackets.len() - 1 {
        brackets[i].up_to is None
    } else {
        &&& brackets[i].up_to is Some
        &&& brackets[i].up_to->0.key > floor_below(brackets, i)
    }
}

/// A state bracket schedule with nothing wrong in it: at least one
/// bracket, and every bracket as it should be.
pub open spec fn state_brackets_usable(brackets: Seq<BracketCheck>) -> bool {
    &&& brackets.len() > 0
    &&& forall|i: int| 0 <= i < brackets.len() ==> #[trigger] bracket_ok(brackets, i)
}

/// The errors the schedule's brackets get (those on
/// `assumptions.state_tax.brackets` and its items).
pub open spec fn state_brackets_errors(brackets: Seq<BracketCheck>) -> Seq<ErrorText> {
    if brackets.len() == 0 {
        seq![("assumptions.state_tax.brackets"@, "State tax needs at least one bracket."@)]
    } else {
        brackets_errors(brackets, brackets.len() as int)
    }
}

proof fn lemma_brackets_walk(brackets: Seq<BracketCheck>, k: int)
    requires
        0 <= k <= brackets.len(),
        forall|i: int|
            0 <= i < brackets.len() && (#[trigger] brackets[i]).up_to is Some
                ==> brackets[i].up_to->0.comparable,
    ensures
        brackets_walk(brackets, k).0.len() == 0 <==> forall|i: int|
            0 <= i < k ==> #[trigger] bracket_ok(brackets, i),
        (forall|i: int| 0 <= i < k ==> #[trigger] bracket_ok(brackets, i)) && k < brackets.len()
            ==> brackets_walk(brackets, k).1 == (floor_below(brackets, k), true),
    decreases k,
{
    if k > 0 {
        lemma_brackets_walk(brackets, k - 1);
        let w = brackets_walk(brackets, k - 1);
        if forall|i: int| 0 <= i < k ==> #[trigger] bracket_ok(brackets, i) {
            assert(bracket_ok(brackets, k - 1));
            assert forall|i: int| 0 <= i < k - 1 implies #[trigger] bracket_ok(brackets, i) by {
                assert(bracket_ok(brackets, i));
            }
        }
        if brackets_walk(brackets, k).0.len() == 0 {
            assert(w.0.len() == 0);
            assert forall|i: int| 0 <= i < k implies #[trigger] bracket_ok(brackets, i) by {
                if i == k - 1 {
                    if brackets[i].up_to is Some {
                        assert(brackets[i].up_to->0.comparable);
                    }
                }
            }
        }
    }
}

/// A state bracket schedule whose ceilings all compare (none is NaN) gets
/// no bracket error exactly when it is usable: at least one bracket, every
/// rate in 0%..=100%, the last open-ended, and every earlier one with a
/// ceiling above zero and above the one before it.
pub proof fn lemma_state_brackets_pass_when_usable(brackets: Seq<BracketCheck>)
    requires
        forall|i: int|
            0 <= i < brackets.len() && (#[trigger] brackets[i]).up_to is Some
                ==> brackets[i].up_to->0.comparable,
    ensures
        state_brackets_errors(brackets).len() == 0 <==> state_brackets_usable(brackets),
{
    if brackets.len() > 0 {
        lemma_brackets_walk(brackets, brackets.len() as int);
    }
}

} // verus!
