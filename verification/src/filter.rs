//! The filter query builder: from optional filters to a `WHERE` clause.
//!
//! A filter that is absent puts no constraint on the rows. The filters that
//! are present are joined by `AND`, the one on the due date first. The only
//! text that varies is today's date, which the builder formats itself: no
//! text of a caller reaches the clause, and nothing is left to bind.

use vstd::prelude::*;
use vstd::string::StringExecFns;
use crate::date::{iso_text, lemma_text_order, text_le, Date, Ymd};
use crate::value::Value;

verus! {

/// A `WHERE` clause, or the empty text, and the values to bind to it.
#[derive(Debug, PartialEq, Eq)]
pub struct Predicate {
    pub clause: String,
    pub parameters: Vec<Value>,
}

/// The test on the due date, against the text of today's date.
///
/// Wanted due: the due date is today or earlier. Wanted not due: the due
/// date is later than today, or there is none.
pub open spec fn due_text(due: bool, today: Seq<char>) -> Seq<char> {
    if due {
        "due_date <= '"@ + today + "'"@
    } else {
        "(due_date > '"@ + today + "' OR due_date is NULL)"@
    }
}

/// The test on the completion flag.
pub open spec fn completed_text(completed: bool) -> Seq<char> {
    if completed {
        "is_completed == TRUE"@
    } else {
        "is_completed == FALSE"@
    }
}

/// The clause for the given filters, against the text of today's date.
pub open spec fn predicate_text(
    due: Option<bool>,
    completed: Option<bool>,
    today: Seq<char>,
) -> Seq<char> {
    match (due, completed) {
        (Some(due), Some(completed)) => "WHERE "@ + due_text(due, today) + " AND "@
            + completed_text(completed),
        (Some(due), None) => "WHERE "@ + due_text(due, today),
        (None, Some(completed)) => "WHERE "@ + completed_text(completed),
        (None, None) => Seq::empty(),
    }
}

/// A filter that is absent puts no constraint: the clause is empty exactly
/// where both filters are absent, and where one is present the clause is
/// `WHERE`, the test on the due date if that filter is present, and the test
/// on the completion flag if that one is, with `AND` between the two.
pub proof fn lemma_predicate_parts(due: Option<bool>, completed: Option<bool>, today: Seq<char>)
    ensures
        predicate_text(due, completed, today).len() == 0 <==> (due is None && completed is None),
        predicate_text(None, None, today) == Seq::<char>::empty(),
        due matches Some(wanted) ==> predicate_text(due, None, today) == "WHERE "@ + due_text(
            wanted,
            today,
        ),
        completed matches Some(wanted) ==> predicate_text(None, completed, today) == "WHERE "@
            + completed_text(wanted),
        (due is Some && completed is Some) ==> predicate_text(due, completed, today)
            == predicate_text(due, None, today) + " AND "@ + completed_text(completed.unwrap()),
{
    reveal_strlit("WHERE ");
}

/// Whether a due date is due as of `today`: it is today or an earlier day.
/// An entity without a due date is never due.
pub open spec fn is_due(due_date: Option<Ymd>, today: Ymd) -> bool {
    due_date matches Some(day) && day.on_or_before(today)
}

/// The text that a row holds as its due date: the textual form of the date,
/// or `None`, for null, where there is no due date.
pub open spec fn stored_text(due_date: Option<Ymd>) -> Option<Seq<char>> {
    match due_date {
        Some(day) => Some(iso_text(day)),
        None => None,
    }
}

/// What the test on the due date decides of a row, where the store compares
/// texts character by character and lets no comparison with null hold.
/// `stored` is the text that the row holds as its due date, or `None` where
/// it holds null.
pub open spec fn due_test(due: bool, stored: Option<Seq<char>>, today: Seq<char>) -> bool {
    match stored {
        Some(text) => if due {
            text_le(text, today)
        } else {
            !text_le(text, today)
        },
        None => !due,
    }
}

/// The test on the due date decides what it is wanted for. Of a row whose
/// due date is stored in its textual form, or as null where there is none,
/// the test for due rows holds exactly where the row is due, and the test for
/// rows not due exactly where it is not.
pub proof fn lemma_due_test(due: bool, due_date: Option<Ymd>, today: Ymd)
    requires
        today.is_valid(),
        due_date matches Some(day) ==> day.is_valid(),
    ensures
        due_test(due, stored_text(due_date), iso_text(today)) <==> (due == is_due(
            due_date,
            today,
        )),
{
    if let Some(day) = due_date {
        lemma_text_order(day, today);
    }
}

/// Writes the test on the due date.
fn due_clause(due: bool, today: &Date) -> (out: String)
    ensures
        out@ == due_text(due, iso_text(today@)),
{
    let date = today.format();
    if due {
        String::from_str("due_date <= '").concat(date.as_str()).concat("'")
    } else {
        String::from_str("(due_date > '").concat(date.as_str()).concat("' OR due_date is NULL)")
    }
}

/// Writes the test on the completion flag.
fn completed_clause(completed: bool) -> (out: &'static str)
    ensures
        out@ == completed_text(completed),
{
    if completed {
        "is_completed == TRUE"
    } else {
        "is_completed == FALSE"
    }
}

/// Builds the predicate for the given filters, as of `today`.
///
/// With both filters absent the clause is empty. The same filters and the
/// same day always give the same clause, and there is never a value to bind.
pub fn build(due: Option<bool>, completed: Option<bool>, today: &Date) -> (out: Predicate)
    ensures
        out.clause@ == predicate_text(due, completed, iso_text(today@)),
        out.parameters@.len() == 0,
{
    let clause = match (due, completed) {
        (Some(due), Some(completed)) => {
            let first = due_clause(due, today);
            String::from_str("WHERE ").concat(first.as_str()).concat(" AND ").concat(
                completed_clause(completed),
            )
        },
        (Some(due), None) => {
            let first = due_clause(due, today);
            String::from_str("WHERE ").concat(first.as_str())
        },
        (None, Some(completed)) => String::from_str("WHERE ").concat(completed_clause(completed)),
        (None, None) => String::new(),
    };
    Predicate { clause, parameters: Vec::new() }
}

} // verus!
