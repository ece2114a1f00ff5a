//! The streams section of a plan's validation.
use vstd::prelude::*;

use crate::person::PersonId;
use crate::stream::{StreamBoundary, StreamId};
use crate::text::push_str;
use crate::validation::{
    about, about_text, check_date, date_errors, field_for, item_field, push_error, texts, ErrorText,
    ValidationError,
};
use crate::validation_accounts::one_if;

verus! {

/// What validation reads of a cash-flow stream.
#[derive(Clone, Debug)]
pub struct StreamCheck {
    pub id: StreamId,
    pub name: String,
    pub owner: Option<PersonId>,
    /// `Some` when the stream carries a survivor percentage, holding
    /// whether it lies in 0%..=100%.
    pub survivor_percentage: Option<bool>,
    pub start: StreamBoundary,
    pub end: StreamBoundary,
}

/// `streams[i]` shares its id with a stream listed before it.
pub open spec fn stream_repeats(streams: Seq<StreamCheck>, i: int) -> bool {
    exists|j: int| 0 <= j < i && (#[trigger] streams[j]).id@ == streams[i].id@
}

/// The errors of a stream boundary: a dated one is checked as a date.
pub open spec fn boundary_errors(i: int, name: Seq<char>, edge: Seq<char>, b: StreamBoundary) -> Seq<
    ErrorText,
> {
    match b {
        StreamBoundary::Date(d) => date_errors(
            item_field("streams["@, i, edge),
            about(name, "'s "@ + edge + " date"@),
            d,
        ),
        _ => Seq::empty(),
    }
}

/// The errors stream `i` gets before its dates: a duplicate id, a
/// survivor percentage outside 0%..=100%, and one on a stream with no owner
/// whose death could start it.
pub open spec fn stream_head_errors(streams: Seq<StreamCheck>, i: int) -> Seq<ErrorText> {
    let s = streams[i];
    let survivor_field = item_field("streams["@, i, "survivor_percentage"@);
    one_if(
        stream_repeats(streams, i),
        item_field("streams["@, i, "id"@),
        "Duplicate stream id \""@ + s.id@ + "\"."@,
    ) + (match s.survivor_percentage {
        Some(in_range) => one_if(
            !in_range,
            survivor_field,
            about(s.name@, "'s survivor percentage must be between 0% and 100%."@),
        ) + one_if(
            s.owner is None,
            survivor_field,
            about(
                s.name@,
                " has a survivor percentage but no owner — it needs one whose death the survivor share starts at."@,
            ),
        ),
        None => Seq::empty(),
    })
}

/// The errors stream `i` gets, in the order they are checked: those of
/// [`stream_head_errors`], then its start and end dates.
pub open spec fn stream_errors(streams: Seq<StreamCheck>, i: int) -> Seq<ErrorText> {
    let s = streams[i];
    stream_head_errors(streams, i) + boundary_errors(i, s.name@, "start"@, s.start)
        + boundary_errors(i, s.name@, "end"@, s.end)
}

/// The errors of the first `n` streams.
pub open spec fn streams_errors(streams: Seq<StreamCheck>, n: int) -> Seq<ErrorText>
    decreases n,
{
    if n <= 0 {
        Seq::empty()
    } else {
        streams_errors(streams, n - 1) + stream_errors(streams, n - 1)
    }
}

fn stream_repeats_exec(streams: &Vec<StreamCheck>, i: usize) -> (r: bool)
    requires
        i < streams@.len(),
    ensures
        r == stream_repeats(streams@, i as int),
{
    let mut j: usize = 0;
    while j < i
        invariant
            j <= i < streams@.len(),
            forall|k: int| 0 <= k < j ==> (#[trigger] streams@[k]).id@ != streams@[i as int].id@,
        decreases i - j,
    {
        if streams[j].id == streams[i].id {
            return true;
        }
        j = j + 1;
    }
    false
}

fn check_boundary(
    errors: &mut Vec<ValidationError>,
    i: usize,
    name: &String,
    edge: &str,
    b: &StreamBoundary,
)
    requires
        i <= i64::MAX,
    ensures
        texts(final(errors)@) == texts(old(errors)@) + boundary_errors(i as int, name@, edge@, *b),
{
    let ghost before = texts(errors@);
    match b {
        StreamBoundary::Date(d) => {
            let mut rest = crate::text::text("'s ");
            push_str(&mut rest, edge);
            push_str(&mut rest, " date");
            let label = about_text(name, rest.as_str());
            check_date(errors, &field_for("streams[", i, edge), &label, *d);
        },
        _ => {
            proof {
                assert(texts(errors@) =~= before + boundary_errors(i as int, name@, edge@, *b));
            }
        },
    }
}

fn check_stream_head(errors: &mut Vec<ValidationError>, streams: &Vec<StreamCheck>, i: usize)
    requires
        i < streams@.len() <= i64::MAX,
    ensures
        texts(final(errors)@) == texts(old(errors)@) + stream_head_errors(streams@, i as int),
{
    let s = &streams[i];
    let ghost before = texts(errors@);
    if stream_repeats_exec(streams, i) {
        let mut message = crate::text::text("Duplicate stream id \"");
        push_str(&mut message, s.id.as_str());
        push_str(&mut message, "\".");
        push_error(errors, field_for("streams[", i, "id"), message);
    }
    let ghost step1 = texts(errors@);
    match s.survivor_percentage {
        Some(in_range) => {
            if !in_range {
                push_error(
                    errors,
                    field_for("streams[", i, "survivor_percentage"),
                    about_text(&s.name, "'s survivor percentage must be between 0% and 100%."),
                );
            }
            let ghost step2 = texts(errors@);
            if s.owner.is_none() {
                push_error(
                    errors,
                    field_for("streams[", i, "survivor_percentage"),
                    about_text(
                        &s.name,
                        " has a survivor percentage but no owner — it needs one whose death the survivor share starts at.",
                    ),
                );
            }
            proof {
                assert(texts(errors@) =~= step1 + one_if(
                    !in_range,
                    item_field("streams["@, i as int, "survivor_percentage"@),
                    about(s.name@, "'s survivor percentage must be between 0% and 100%."@),
                ) + one_if(
                    s.owner is None,
                    item_field("streams["@, i as int, "survivor_percentage"@),
                    about(
                        s.name@,
                        " has a survivor percentage but no owner — it needs one whose death the survivor share starts at."@,
                    ),
                ));
            }
        },
        None => {},
    }
    proof {
        assert(step1 =~= before + one_if(
            stream_repeats(streams@, i as int),
            item_field("streams["@, i as int, "id"@),
            "Duplicate stream id \""@ + s.id@ + "\"."@,
        ));
        assert(texts(errors@) =~= before + stream_head_errors(streams@, i as int));
    }
}

/// Appends stream `i`'s errors.
fn check_stream(errors: &mut Vec<ValidationError>, streams: &Vec<StreamCheck>, i: usize)
    requires
        i < streams@.len() <= i64::MAX,
    ensures
        texts(final(errors)@) == texts(old(errors)@) + stream_errors(streams@, i as int),
{
    let s = &streams[i];
    let ghost before = texts(errors@);
    check_stream_head(errors, streams, i);
    let ghost head = texts(errors@);
    check_boundary(errors, i, &s.name, "start", &s.start);
    let ghost middle = texts(errors@);
    check_boundary(errors, i, &s.name, "end", &s.end);
    proof {
        assert(middle == head + boundary_errors(i as int, s.name@, "start"@, s.start));
        assert(texts(errors@) =~= before + stream_errors(streams@, i as int));
    }
}

/// Appends every stream's errors, in plan order.
pub fn check_streams(errors: &mut Vec<ValidationError>, streams: &Vec<StreamCheck>)
    requires
        streams@.len() <= i64::MAX,
    ensures
        texts(final(errors)@) == texts(old(errors)@) + streams_errors(streams@, streams@.len() as int),
{
    let ghost before = texts(errors@);
    let mut i: usize = 0;
    proof {
        assert(texts(errors@) =~= before + streams_errors(streams@, 0));
    }
    while i < streams.len()
        invariant
            i <= streams@.len() <= i64::MAX,
            texts(errors@) == before + streams_errors(streams@, i as int),
        decreases streams@.len() - i,
    {
        check_stream(errors, streams, i);
        proof {
            assert(texts(errors@) =~= before + streams_errors(streams@, i + 1));
        }
        i = i + 1;
    }
}

} // verus!
