//! The history of a connection: what it was asked and what it answered.

use crate::error::StorageErrorView;
use crate::query::StatementView;
use crate::row::{counted, looked_up_text, read_all, FromRow};
use crate::value::CellView;
use vstd::prelude::*;

verus! {

/// What a statement is answered: the rows of its result (none for a
/// statement that returns none), or a failure.
pub type Answer = Result<Seq<Seq<CellView>>, StorageErrorView>;

/// One exchange with the connection.
pub enum Exchange {
    /// The connection was opened on the store at `path`.
    Opened { path: Seq<char> },
    /// A statement was run and answered.
    Ran { statement: StatementView, answer: Answer },
    /// The id of the row inserted last was asked for, and `id` was the
    /// answer.
    RowId { id: i64 },
}

/// The history of a connection just opened on the store at `path`: the
/// opening and nothing else.
pub open spec fn opened_at(path: Seq<char>) -> Seq<Exchange> {
    seq![Exchange::Opened { path }]
}

/// What the statement run last was answered.
pub open spec fn last_answer(history: Seq<Exchange>) -> Answer {
    match history.last() {
        Exchange::Ran { answer, .. } => answer,
        _ => Ok(Seq::empty()),
    }
}

/// From `before` to `after`, one statement was run: `statement`.
pub open spec fn ran(
    before: Seq<Exchange>,
    after: Seq<Exchange>,
    statement: StatementView,
) -> bool {
    after == before.push(Exchange::Ran { statement, answer: last_answer(after) })
}

/// A statement that ran without failure and returned no rows.
pub open spec fn done(statement: StatementView) -> Exchange {
    Exchange::Ran { statement, answer: Ok(Seq::empty()) }
}

/// A statement that failed.
pub open spec fn failed(statement: StatementView, e: StorageErrorView) -> Exchange {
    Exchange::Ran { statement, answer: Err(e) }
}

/// A statement that returns no rows, run with the given result.
pub open spec fn executed(
    statement: StatementView,
    result: Result<(), StorageErrorView>,
) -> Exchange {
    match result {
        Ok(_) => done(statement),
        Err(e) => failed(statement, e),
    }
}

/// An insert with the given result: the id is asked for only after the
/// insert has succeeded.
pub open spec fn inserted(statement: StatementView, result: Result<i64, StorageErrorView>) -> Seq<
    Exchange,
> {
    match result {
        Ok(id) => seq![done(statement), Exchange::RowId { id }],
        Err(e) => seq![failed(statement, e)],
    }
}

/// Statements that all ran without failure, in order.
pub open spec fn all_done(statements: Seq<StatementView>) -> Seq<Exchange> {
    Seq::new(statements.len(), |i: int| done(statements[i]))
}

/// Statements run in order up to the first failure: the first `n` ran,
/// statement `n` failed with `e`, and none after it was run.
pub open spec fn done_until_failure(
    statements: Seq<StatementView>,
    n: int,
    e: StorageErrorView,
) -> Seq<Exchange> {
    all_done(statements.take(n)).push(failed(statements[n], e))
}

/// Statements that were all run, in order, whatever each was answered.
pub open spec fn all_tried(
    statements: Seq<StatementView>,
    answers: Seq<Answer>,
) -> Seq<Exchange> {
    Seq::new(
        statements.len(),
        |i: int| Exchange::Ran { statement: statements[i], answer: answers[i] },
    )
}

/// What reading an answer as records gives: the failure of the statement,
/// or what reading its rows gives.
pub open spec fn read_answer<T: FromRow>(
    answer: Answer,
) -> Result<Seq<T::V>, StorageErrorView> {
    match answer {
        Ok(rows) => read_all::<T>(rows),
        Err(e) => Err(e),
    }
}

/// What reading an answer as one looked-up text gives.
pub open spec fn looked_up_answer(answer: Answer) -> Result<
    Option<Seq<char>>,
    StorageErrorView,
> {
    match answer {
        Ok(rows) => looked_up_text(rows),
        Err(e) => Err(e),
    }
}

/// What reading an answer as a count gives.
pub open spec fn counted_answer(answer: Answer) -> Result<
    i32,
    StorageErrorView,
> {
    match answer {
        Ok(rows) => counted(rows),
        Err(e) => Err(e),
    }
}

} // verus!
