//! Transactions: the statements that make several writes one. What is
//! written between the begin and the commit stands together or not at
//! all; a rollback leaves the store as it was at the begin.

use crate::query::{Statement, StatementView};
use crate::schema::plain_statement;
use crate::value::Param;
use vstd::prelude::*;

verus! {

/// Begins a transaction.
pub const BEGIN: &'static str = "BEGIN";

/// Commits the transaction that was begun.
pub const COMMIT: &'static str = "COMMIT";

/// Undoes what was written since the transaction was begun.
pub const ROLLBACK: &'static str = "ROLLBACK";

/// The statement that begins a transaction.
pub open spec fn begin_statement() -> StatementView {
    plain_statement(BEGIN@)
}

/// The statement that commits a transaction.
pub open spec fn commit_statement() -> StatementView {
    plain_statement(COMMIT@)
}

/// The statement that rolls a transaction back.
pub open spec fn rollback_statement() -> StatementView {
    plain_statement(ROLLBACK@)
}

/// Builds [`begin_statement`].
pub fn begin() -> (s: Statement)
    ensures
        s@ == begin_statement(),
{
    let params: Vec<Param> = Vec::new();
    assert(params.deep_view() =~= Seq::empty());
    Statement::new(BEGIN, params)
}

/// Builds [`commit_statement`].
pub fn commit() -> (s: Statement)
    ensures
        s@ == commit_statement(),
{
    let params: Vec<Param> = Vec::new();
    assert(params.deep_view() =~= Seq::empty());
    Statement::new(COMMIT, params)
}

/// Builds [`rollback_statement`].
pub fn rollback() -> (s: Statement)
    ensures
        s@ == rollback_statement(),
{
    let params: Vec<Param> = Vec::new();
    assert(params.deep_view() =~= Seq::empty());
    Statement::new(ROLLBACK, params)
}

} // verus!
