//! Settings: pairs of a unique key and a value, both text.

use crate::query::{Statement, StatementView};
use crate::value::{Param, ParamView};
use vstd::prelude::*;

verus! {

/// Reads the value of a key.
pub const GET_SETTING: &'static str = "SELECT value FROM settings WHERE key = ?1";

/// Inserts a pair, or replaces the value where the key is already there.
pub const SET_SETTING: &'static str = "INSERT INTO settings (key, value) VALUES (?1, ?2) \
    ON CONFLICT(key) DO UPDATE SET value = excluded.value";

/// The statement that reads the value of a key.
pub open spec fn get_setting_statement(key: Seq<char>) -> StatementView {
    StatementView {
        sql: GET_SETTING@,
        params: seq![ParamView::Text(key)],
    }
}

/// The statement that sets the value of a key: it inserts the pair, or
/// replaces the value where the key is already there.
pub open spec fn set_setting_statement(key: Seq<char>, value: Seq<char>) -> StatementView {
    StatementView {
        sql: SET_SETTING@,
        params: seq![ParamView::Text(key), ParamView::Text(value)],
    }
}

/// Builds [`get_setting_statement`].
pub fn get_setting(key: &str) -> (s: Statement)
    ensures
        s@ == get_setting_statement(key@),
{
    let mut params: Vec<Param> = Vec::new();
    params.push(Param::text(key));
    assert(params.deep_view() =~= get_setting_statement(key@).params);
    Statement::new(GET_SETTING, params)
}

/// Builds [`set_setting_statement`].
pub fn set_setting(key: &str, value: &str) -> (s: Statement)
    ensures
        s@ == set_setting_statement(key@, value@),
{
    let mut params: Vec<Param> = Vec::new();
    params.push(Param::text(key));
    params.push(Param::text(value));
    assert(params.deep_view() =~= set_setting_statement(key@, value@).params);
    Statement::new(SET_SETTING, params)
}

} // verus!
