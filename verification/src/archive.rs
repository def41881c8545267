//! Generated tests and their cached answer keys: statements and the reader
//! of a listed test's row.

use crate::query::{Statement, StatementView};
use crate::row::{
    int_at, optional_text_at, read_int, read_optional_text, read_text, text_at, FromRow,
};
use crate::value::{optional_integer_param, Cell, CellView, Param, ParamView};
use vstd::prelude::*;

verus! {

/// What the display name of every test begins with.
pub const TEST_NAME_PREFIX: &'static str = "Test - ";

/// Inserts a test.
pub const INSERT_TEST: &'static str = "INSERT INTO tests (student_id, name) VALUES (?1, ?2)";

/// Makes one question a member of a test.
pub const INSERT_MEMBER: &'static str =
    "INSERT INTO test_questions (test_id, question_id) VALUES (?1, ?2)";

/// Lists the tests, newest first, each with its student's name and the
/// number of its member questions.
pub const SELECT_TESTS: &'static str = "SELECT t.id, t.created_at, s.name, COUNT(tq.question_id) \
    FROM tests t \
    LEFT JOIN students s ON t.student_id = s.id \
    LEFT JOIN test_questions tq ON t.id = tq.test_id \
    GROUP BY t.id \
    ORDER BY t.created_at DESC, t.id DESC";

/// Reads the member questions of a test.
pub const SELECT_TEST_QUESTIONS: &'static str = "SELECT q.id, q.text, q.image_path, \
    q.image_base64, q.subject, q.source_pdf, q.page_number, q.difficulty, q.topic \
    FROM questions q \
    INNER JOIN test_questions tq ON q.id = tq.question_id \
    WHERE tq.test_id = ?1";

/// Reads the cached answer key of a test.
pub const SELECT_ANSWER_KEY: &'static str = "SELECT answer_key FROM tests WHERE id = ?1";

/// Stores the answer key of a test.
pub const UPDATE_ANSWER_KEY: &'static str = "UPDATE tests SET answer_key = ?1 WHERE id = ?2";

/// A decimal digit.
pub open spec fn is_digit(c: char) -> bool {
    '0' <= c && c <= '9'
}

/// The number that two digits write.
pub open spec fn two_digits(tens: char, ones: char) -> int {
    (tens as int - '0' as int) * 10 + (ones as int - '0' as int)
}

/// A year as it is written in a stamp: four digits, or, for a year before
/// 0 or after 9999, a sign and at least four digits.
pub open spec fn is_year_text(s: Seq<char>) -> bool {
    ||| s.len() == 4 && forall|i: int| 0 <= i < s.len() ==> is_digit(#[trigger] s[i])
    ||| s.len() >= 5 && (s[0] == '+' || s[0] == '-') && forall|i: int|
        1 <= i < s.len() ==> is_digit(#[trigger] s[i])
}

/// What follows the year in a stamp: `-MM-DD HH:MM`, a month from 01 to
/// 12, a day from 01 to 31, an hour from 00 to 23 and a minute from 00 to
/// 59, each in two digits.
pub open spec fn is_minute_text(s: Seq<char>) -> bool {
    &&& s.len() == 12
    &&& s[0] == '-' && is_digit(s[1]) && is_digit(s[2]) && 1 <= two_digits(s[1], s[2]) <= 12
    &&& s[3] == '-' && is_digit(s[4]) && is_digit(s[5]) && 1 <= two_digits(s[4], s[5]) <= 31
    &&& s[6] == ' ' && is_digit(s[7]) && is_digit(s[8]) && 0 <= two_digits(s[7], s[8]) <= 23
    &&& s[9] == ':' && is_digit(s[10]) && is_digit(s[11]) && 0 <= two_digits(s[10], s[11]) <= 59
}

/// A time to the minute as a stamp: `YYYY-MM-DD HH:MM`.
pub open spec fn is_minute_stamp(s: Seq<char>) -> bool {
    &&& s.len() >= 16
    &&& is_year_text(s.take(s.len() - 12))
    &&& is_minute_text(s.skip(s.len() - 12))
}

/// The display name of a test created at the local time that `stamp`
/// renders.
pub open spec fn test_name_text(stamp: Seq<char>) -> Seq<char> {
    TEST_NAME_PREFIX@ + stamp
}

/// The statement that inserts a test, for a student or for none.
pub open spec fn insert_test_statement(student_id: Option<i32>, name: Seq<char>) -> StatementView {
    StatementView {
        sql: INSERT_TEST@,
        params: seq![optional_integer_param(student_id), ParamView::Text(name)],
    }
}

/// The statement that makes one question a member of a test.
pub open spec fn add_member_statement(test_id: i64, question_id: i32) -> StatementView {
    StatementView {
        sql: INSERT_MEMBER@,
        params: seq![ParamView::Integer(test_id), ParamView::Integer(question_id as i64)],
    }
}

/// The statement that lists the tests, newest first: id, creation time,
/// the student's name if the test still has a student, and the number of
/// member questions.
pub open spec fn tests_statement() -> StatementView {
    StatementView {
        sql: SELECT_TESTS@,
        params: Seq::empty(),
    }
}

/// The statement that reads the member questions of a test.
pub open spec fn test_questions_statement(test_id: i32) -> StatementView {
    StatementView {
        sql: SELECT_TEST_QUESTIONS@,
        params: seq![ParamView::Integer(test_id as i64)],
    }
}

/// The statement that reads the cached answer key of a test.
pub open spec fn answer_key_statement(test_id: i32) -> StatementView {
    StatementView {
        sql: SELECT_ANSWER_KEY@,
        params: seq![ParamView::Integer(test_id as i64)],
    }
}

/// The statement that stores the answer key of a test.
pub open spec fn save_answer_key_statement(test_id: i32, key: Seq<char>) -> StatementView {
    StatementView {
        sql: UPDATE_ANSWER_KEY@,
        params: seq![ParamView::Text(key), ParamView::Integer(test_id as i64)],
    }
}

/// Builds [`test_name_text`].
pub fn test_name(stamp: &str) -> (name: String)
    ensures
        name@ == test_name_text(stamp@),
{
    let mut name = String::from_str(TEST_NAME_PREFIX);
    name.append(stamp);
    name
}

/// Builds [`insert_test_statement`].
pub fn insert_test(student_id: Option<i32>, name: &str) -> (s: Statement)
    ensures
        s@ == insert_test_statement(student_id, name@),
{
    let mut params: Vec<Param> = Vec::new();
    params.push(Param::optional_integer(student_id));
    params.push(Param::text(name));
    assert(params.deep_view() =~= insert_test_statement(student_id, name@).params);
    Statement::new(INSERT_TEST, params)
}

/// Builds [`add_member_statement`].
pub fn add_member(test_id: i64, question_id: i32) -> (s: Statement)
    ensures
        s@ == add_member_statement(test_id, question_id),
{
    let mut params: Vec<Param> = Vec::new();
    params.push(Param::Integer(test_id));
    params.push(Param::integer(question_id));
    assert(params.deep_view() =~= add_member_statement(test_id, question_id).params);
    Statement::new(INSERT_MEMBER, params)
}

/// Builds [`tests_statement`].
pub fn select_tests() -> (s: Statement)
    ensures
        s@ == tests_statement(),
{
    let params: Vec<Param> = Vec::new();
    assert(params.deep_view() =~= Seq::empty());
    Statement::new(SELECT_TESTS, params)
}

/// Builds [`test_questions_statement`].
pub fn select_test_questions(test_id: i32) -> (s: Statement)
    ensures
        s@ == test_questions_statement(test_id),
{
    let mut params: Vec<Param> = Vec::new();
    params.push(Param::integer(test_id));
    assert(params.deep_view() =~= test_questions_statement(test_id).params);
    Statement::new(SELECT_TEST_QUESTIONS, params)
}

/// Builds [`answer_key_statement`].
pub fn select_answer_key(test_id: i32) -> (s: Statement)
    ensures
        s@ == answer_key_statement(test_id),
{
    let mut params: Vec<Param> = Vec::new();
    params.push(Param::integer(test_id));
    assert(params.deep_view() =~= answer_key_statement(test_id).params);
    Statement::new(SELECT_ANSWER_KEY, params)
}

/// Builds [`save_answer_key_statement`].
pub fn save_answer_key(test_id: i32, key: &str) -> (s: Statement)
    ensures
        s@ == save_answer_key_statement(test_id, key@),
{
    let mut params: Vec<Param> = Vec::new();
    params.push(Param::text(key));
    params.push(Param::integer(test_id));
    assert(params.deep_view() =~= save_answer_key_statement(test_id, key@).params);
    Statement::new(UPDATE_ANSWER_KEY, params)
}

/// A listed test's row: id, creation time, student's name if any, number
/// of member questions.
impl FromRow for (i32, String, Option<String>, i32) {
    open spec fn readable(row: Seq<CellView>) -> bool {
        &&& int_at(row, 0) is Some
        &&& text_at(row, 1) is Some
        &&& optional_text_at(row, 2) is Some
        &&& int_at(row, 3) is Some
    }

    open spec fn of_row(row: Seq<CellView>) -> (i32, Seq<char>, Option<Seq<char>>, i32) {
        (
            int_at(row, 0).unwrap(),
            text_at(row, 1).unwrap(),
            optional_text_at(row, 2).unwrap(),
            int_at(row, 3).unwrap(),
        )
    }

    fn from_row(row: &Vec<Cell>) -> (r: Option<(i32, String, Option<String>, i32)>) {
        let id: i32 = match read_int(row, 0) {
            Some(v) => v,
            None => { return None; },
        };
        let created = match read_text(row, 1) {
            Some(v) => v,
            None => { return None; },
        };
        let student = match read_optional_text(row, 2) {
            Some(v) => v,
            None => { return None; },
        };
        let count: i32 = match read_int(row, 3) {
            Some(v) => v,
            None => { return None; },
        };
        Some((id, created, student, count))
    }
}

} // verus!
