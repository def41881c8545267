//! Students and the questions they have solved: statements and the reader
//! of a student's row.

use crate::query::{Statement, StatementView};
use crate::row::{int_at, read_int, read_text, text_at, FromRow};
use crate::value::{Cell, CellView, Param, ParamView};
use vstd::prelude::*;

verus! {

/// Inserts a student.
pub const INSERT_STUDENT: &'static str = "INSERT INTO students (name) VALUES (?1)";

/// Reads every student, in alphabetical order.
pub const SELECT_STUDENTS: &'static str = "SELECT id, name FROM students ORDER BY name ASC";

/// Deletes one student.
pub const DELETE_STUDENT: &'static str = "DELETE FROM students WHERE id = ?1";

/// Marks one question as solved by one student, unless it is marked already.
pub const MARK_SOLVED: &'static str = "INSERT OR IGNORE INTO student_solved_questions \
    (student_id, question_id) \
    VALUES (?1, ?2)";

/// The statement that inserts a student. Names are unique in the store: a
/// second student of the same name is refused there.
pub open spec fn add_student_statement(name: Seq<char>) -> StatementView {
    StatementView {
        sql: INSERT_STUDENT@,
        params: seq![ParamView::Text(name)],
    }
}

/// The statement that reads every student, in alphabetical order.
pub open spec fn students_statement() -> StatementView {
    StatementView {
        sql: SELECT_STUDENTS@,
        params: Seq::empty(),
    }
}

/// The statement that deletes one student.
pub open spec fn delete_student_statement(id: i32) -> StatementView {
    StatementView {
        sql: DELETE_STUDENT@,
        params: seq![ParamView::Integer(id as i64)],
    }
}

/// The statement that marks one question as solved by one student. It asks
/// the store to ignore a pair that is already marked.
pub open spec fn mark_solved_statement(student_id: i32, question_id: i32) -> StatementView {
    StatementView {
        sql: MARK_SOLVED@,
        params: seq![
            ParamView::Integer(student_id as i64),
            ParamView::Integer(question_id as i64),
        ],
    }
}

/// Builds [`add_student_statement`].
pub fn add_student(name: &str) -> (s: Statement)
    ensures
        s@ == add_student_statement(name@),
{
    let mut params: Vec<Param> = Vec::new();
    params.push(Param::text(name));
    assert(params.deep_view() =~= add_student_statement(name@).params);
    Statement::new(INSERT_STUDENT, params)
}

/// Builds [`students_statement`].
pub fn select_students() -> (s: Statement)
    ensures
        s@ == students_statement(),
{
    let params: Vec<Param> = Vec::new();
    assert(params.deep_view() =~= Seq::empty());
    Statement::new(SELECT_STUDENTS, params)
}

/// Builds [`delete_student_statement`].
pub fn delete_student(id: i32) -> (s: Statement)
    ensures
        s@ == delete_student_statement(id),
{
    let mut params: Vec<Param> = Vec::new();
    params.push(Param::integer(id));
    assert(params.deep_view() =~= delete_student_statement(id).params);
    Statement::new(DELETE_STUDENT, params)
}

/// Builds [`mark_solved_statement`].
pub fn mark_solved(student_id: i32, question_id: i32) -> (s: Statement)
    ensures
        s@ == mark_solved_statement(student_id, question_id),
{
    let mut params: Vec<Param> = Vec::new();
    params.push(Param::integer(student_id));
    params.push(Param::integer(question_id));
    assert(params.deep_view() =~= mark_solved_statement(student_id, question_id).params);
    Statement::new(MARK_SOLVED, params)
}

/// A student's row: the id and the name.
impl FromRow for (i32, String) {
    open spec fn readable(row: Seq<CellView>) -> bool {
        int_at(row, 0) is Some && text_at(row, 1) is Some
    }

    open spec fn of_row(row: Seq<CellView>) -> (i32, Seq<char>) {
        (int_at(row, 0).unwrap(), text_at(row, 1).unwrap())
    }

    fn from_row(row: &Vec<Cell>) -> (r: Option<(i32, String)>) {
        let id: i32 = match read_int(row, 0) {
            Some(v) => v,
            None => { return None; },
        };
        let name = match read_text(row, 1) {
            Some(v) => v,
            None => { return None; },
        };
        Some((id, name))
    }
}

} // verus!
