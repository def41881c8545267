//! The calls into `rusqlite`, and the one value through which the rest of
//! the library makes them: a [`Session`], which is the connection together
//! with the history of what was exchanged over it. Nothing here is claimed
//! of what the store answers. What is proved is that the history is a
//! true record: it grows by an exchange exactly where a call is made, and
//! only here can it be written.

use crate::error::{
    fails_as_reported, reported_by_connection, reported_failure, viewed, StorageError,
    StorageErrorView,
};
use crate::history::{executed, inserted, last_answer, opened_at, ran, Exchange};
use crate::query::Statement;
use crate::value::{Cell, Param};
use vstd::prelude::*;

verus! {

/// An open connection of `rusqlite`. Nothing of its state is visible here.
#[verifier::external_type_specification]
#[verifier::external_body]
pub struct ExConnection(rusqlite::Connection);

/// The error of `rusqlite`.
#[verifier::external_type_specification]
#[verifier::external_body]
pub struct ExSqliteError(rusqlite::Error);

/// The owned value of `rusqlite`: what is bound to a placeholder and what
/// a cell holds.
#[verifier::external_type_specification]
#[verifier::external_body]
pub struct ExSqliteValue(rusqlite::types::Value);

/// Calls `rusqlite::Connection::open`, which opens the file at `path` and
/// creates it where it is missing. Nothing is claimed of the outcome.
#[verifier::external_body]
fn sqlite_open(path: &str) -> (r: Result<rusqlite::Connection, rusqlite::Error>) {
    rusqlite::Connection::open(path)
}

/// Makes the `rusqlite::types::Value` of the same storage class and
/// content as `param`.
#[verifier::external_body]
fn sqlite_value(param: &Param) -> (v: rusqlite::types::Value) {
    match param {
        Param::Null => rusqlite::types::Value::Null,
        Param::Integer(i) => rusqlite::types::Value::Integer(*i),
        Param::Text(s) => rusqlite::types::Value::Text(s.clone()),
    }
}

/// Tells the variants of `rusqlite::types::Value` apart. An integer and a
/// text keep their content; a floating-point number and a blob keep only
/// their storage class.
#[verifier::external_body]
fn sqlite_cell(value: &rusqlite::types::Value) -> (c: Cell) {
    match value {
        rusqlite::types::Value::Null => Cell::Null,
        rusqlite::types::Value::Integer(i) => Cell::Integer(*i),
        rusqlite::types::Value::Real(_) => Cell::Real,
        rusqlite::types::Value::Text(s) => Cell::Text(s.clone()),
        rusqlite::types::Value::Blob(_) => Cell::Blob,
    }
}

/// Calls `rusqlite::Connection::execute` with `bound` as the positional
/// parameters. The outcome depends on the store: nothing is claimed of it.
#[verifier::external_body]
fn sqlite_execute(
    conn: &rusqlite::Connection,
    sql: &str,
    bound: &Vec<rusqlite::types::Value>,
) -> (r: Result<usize, rusqlite::Error>) {
    conn.execute(sql, rusqlite::params_from_iter(bound.iter()))
}

/// Calls `rusqlite::Connection::prepare` and `Statement::query_map` with
/// `bound` as the positional parameters, and collects every column of
/// every row with `Row::get`, as a `Value`. A text that is not UTF-8 fails
/// the whole call there. The outcome depends on the store: nothing is
/// claimed of it.
#[verifier::external_body]
fn sqlite_query(
    conn: &rusqlite::Connection,
    sql: &str,
    bound: &Vec<rusqlite::types::Value>,
) -> (r: Result<Vec<Vec<rusqlite::types::Value>>, rusqlite::Error>) {
    let mut prepared = conn.prepare(sql)?;
    let width: usize = prepared.column_count();
    let rows = prepared.query_map(rusqlite::params_from_iter(bound.iter()), |row| {
        (0..width).map(|i| row.get::<usize, rusqlite::types::Value>(i)).collect()
    })?;
    rows.collect()
}

/// Calls `rusqlite::Connection::last_insert_rowid`: the row id of the most
/// recent successful insert on this connection.
#[verifier::external_body]
fn sqlite_last_insert_rowid(conn: &rusqlite::Connection) -> (id: i64) {
    conn.last_insert_rowid()
}

/// Renders a `rusqlite::Error` with its `Display` impl.
#[verifier::external_body]
fn sqlite_error_text(e: &rusqlite::Error) -> (text: String) {
    e.to_string()
}

/// Calls `rusqlite::Error::sqlite_error_code` and tells whether the code
/// is `ErrorCode::ConstraintViolation`.
#[verifier::external_body]
fn sqlite_is_constraint_violation(e: &rusqlite::Error) -> (b: bool) {
    e.sqlite_error_code() == Some(rusqlite::ErrorCode::ConstraintViolation)
}

/// The failure that the library reports for a failure of the connection:
/// a broken constraint where the connection's error code says so, else
/// another failure, and either with the connection's message.
fn storage_error(e: &rusqlite::Error) -> (failure: StorageError)
    ensures
        reported_by_connection(failure@),
{
    let constraint = sqlite_is_constraint_violation(e);
    let message = sqlite_error_text(e);
    let failure = StorageError::reported(constraint, message);
    assert(failure@ == reported_failure(constraint, message@));
    failure
}

/// The values to bind, one for each parameter, in order.
fn bind(params: &Vec<Param>) -> (bound: Vec<rusqlite::types::Value>)
    ensures
        bound.len() == params.len(),
{
    let mut bound: Vec<rusqlite::types::Value> = Vec::new();
    let mut i: usize = 0;
    while i < params.len()
        invariant
            i <= params.len(),
            bound.len() == i,
        decreases params.len() - i,
    {
        bound.push(sqlite_value(&params[i]));
        i += 1;
    }
    bound
}

/// The cells of a result, row by row.
fn cells(raw: &Vec<Vec<rusqlite::types::Value>>) -> (rows: Vec<Vec<Cell>>)
    ensures
        rows.len() == raw.len(),
        forall|i: int| 0 <= i < raw.len() ==> (#[trigger] rows[i]).len() == raw[i].len(),
{
    let mut rows: Vec<Vec<Cell>> = Vec::new();
    let mut i: usize = 0;
    while i < raw.len()
        invariant
            i <= raw.len(),
            rows.len() == i,
            forall|k: int| 0 <= k < i ==> (#[trigger] rows[k]).len() == raw[k].len(),
        decreases raw.len() - i,
    {
        let mut row: Vec<Cell> = Vec::new();
        let mut j: usize = 0;
        while j < raw[i].len()
            invariant
                i < raw.len(),
                j <= raw[i as int].len(),
                row.len() == j,
            decreases raw[i as int].len() - j,
        {
            row.push(sqlite_cell(&raw[i][j]));
            j += 1;
        }
        rows.push(row);
        i += 1;
    }
    rows
}

/// The one connection to the store, and what was exchanged over it.
pub struct Session {
    conn: rusqlite::Connection,
    history: Ghost<Seq<Exchange>>,
}

impl Session {
    /// The exchanges with the connection so far, oldest first.
    pub closed spec fn history(&self) -> Seq<Exchange> {
        self.history@
    }

    /// Opens the store at `path`, creating the file where it is missing.
    pub(crate) fn open(path: &str) -> (r: Result<Session, StorageError>)
        ensures
            r matches Ok(session) ==> session.history() == opened_at(path@),
            r matches Err(e) ==> reported_by_connection(e@),
    {
        match sqlite_open(path) {
            Ok(conn) => {
                Ok(Session { conn, history: Ghost(opened_at(path@)) })
            },
            Err(e) => Err(storage_error(&e)),
        }
    }

    /// Hands a statement that returns no rows to the connection.
    pub(crate) fn execute(&mut self, statement: &Statement) -> (r: Result<(), StorageError>)
        ensures
            final(self).history() == old(self).history().push(executed(statement@, viewed(r))),
            fails_as_reported(viewed(r)),
    {
        let bound = bind(&statement.params);
        let outcome = sqlite_execute(&self.conn, statement.sql.as_str(), &bound);
        let r = match outcome {
            Ok(_) => Ok(()),
            Err(e) => Err(storage_error(&e)),
        };
        self.history = Ghost(self.history@.push(executed(statement@, viewed(r))));
        r
    }

    /// Hands a statement to the connection and collects its rows.
    pub(crate) fn query(&mut self, statement: &Statement) -> (r: Result<
        Vec<Vec<Cell>>,
        StorageError,
    >)
        ensures
            ran(old(self).history(), final(self).history(), statement@),
            last_answer(final(self).history()) == viewed(r),
            fails_as_reported(viewed(r)),
    {
        let bound = bind(&statement.params);
        let outcome = sqlite_query(&self.conn, statement.sql.as_str(), &bound);
        let r = match outcome {
            Ok(raw) => Ok(cells(&raw)),
            Err(e) => Err(storage_error(&e)),
        };
        self.history = Ghost(
            self.history@.push(Exchange::Ran { statement: statement@, answer: viewed(r) }),
        );
        r
    }

    /// Hands an insert to the connection and asks for the id of the row.
    pub(crate) fn insert(&mut self, statement: &Statement) -> (r: Result<i64, StorageError>)
        ensures
            final(self).history() == old(self).history() + inserted(statement@, viewed(r)),
            fails_as_reported(viewed(r)),
    {
        match self.execute(statement) {
            Ok(_) => {
                let id: i64 = sqlite_last_insert_rowid(&self.conn);
                self.history = Ghost(self.history@.push(Exchange::RowId { id }));
                assert(self.history() =~= old(self).history() + inserted(
                    statement@,
                    Ok::<_, StorageErrorView>(id),
                ));
                Ok(id)
            },
            Err(e) => {
                assert(self.history() =~= old(self).history() + inserted(
                    statement@,
                    Err::<i64, _>(e@),
                ));
                Err(e)
            },
        }
    }
}

} // verus!
