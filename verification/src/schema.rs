//! The schema of the store: the tables, created where they are missing,
//! and the columns that were added to them later.
//!
//! References between tables are enforced: before anything else the
//! connection is told so, whatever the default of the store's build.
//!
//! The later columns are not recorded as applied. Each is tried at every
//! start; on a store that has the column, the attempt fails and the
//! failure is passed over.

use crate::query::{Statement, StatementView};
use crate::value::Param;
use vstd::prelude::*;

verus! {

/// Tells the connection to enforce the references between tables, and
/// with them what is declared to happen where a referenced row is deleted.
pub const ENFORCE_REFERENCES: &'static str = "PRAGMA foreign_keys = ON";

/// The questions. The store assigns the id and the creation time.
pub const CREATE_QUESTIONS: &'static str = "CREATE TABLE IF NOT EXISTS questions (\
    id INTEGER PRIMARY KEY, \
    text TEXT NOT NULL, \
    image_path TEXT, \
    image_base64 TEXT, \
    subject TEXT, \
    source_pdf TEXT, \
    page_number INTEGER, \
    difficulty INTEGER, \
    topic TEXT, \
    created_at DATETIME DEFAULT CURRENT_TIMESTAMP)";

/// The page templates. A template may be without a preview.
pub const CREATE_TEMPLATES: &'static str = "CREATE TABLE IF NOT EXISTS user_templates (\
    id INTEGER PRIMARY KEY AUTOINCREMENT, \
    name TEXT NOT NULL, \
    path TEXT NOT NULL, \
    preview_image TEXT, \
    margins_json TEXT NOT NULL, \
    created_at DATETIME DEFAULT CURRENT_TIMESTAMP)";

/// The students. No two have the same name.
pub const CREATE_STUDENTS: &'static str = "CREATE TABLE IF NOT EXISTS students (\
    id INTEGER PRIMARY KEY AUTOINCREMENT, \
    name TEXT NOT NULL UNIQUE, \
    created_at DATETIME DEFAULT CURRENT_TIMESTAMP)";

/// Which student has solved which question: each pair at most once, and
/// gone with its student or its question.
pub const CREATE_SOLVED: &'static str = "CREATE TABLE IF NOT EXISTS student_solved_questions (\
    student_id INTEGER, \
    question_id INTEGER, \
    solved_at DATETIME DEFAULT CURRENT_TIMESTAMP, \
    PRIMARY KEY (student_id, question_id), \
    FOREIGN KEY(student_id) REFERENCES students(id) ON DELETE CASCADE, \
    FOREIGN KEY(question_id) REFERENCES questions(id) ON DELETE CASCADE)";

/// The generated tests. A test outlives its student, and is then without
/// one.
pub const CREATE_TESTS: &'static str = "CREATE TABLE IF NOT EXISTS tests (\
    id INTEGER PRIMARY KEY AUTOINCREMENT, \
    student_id INTEGER, \
    name TEXT, \
    created_at DATETIME DEFAULT CURRENT_TIMESTAMP, \
    FOREIGN KEY(student_id) REFERENCES students(id) ON DELETE SET NULL)";

/// Which question is a member of which test: gone with its test or its
/// question.
pub const CREATE_MEMBERS: &'static str = "CREATE TABLE IF NOT EXISTS test_questions (\
    test_id INTEGER, \
    question_id INTEGER, \
    FOREIGN KEY(test_id) REFERENCES tests(id) ON DELETE CASCADE, \
    FOREIGN KEY(question_id) REFERENCES questions(id) ON DELETE CASCADE)";

/// The settings: one value for each key.
pub const CREATE_SETTINGS: &'static str = "CREATE TABLE IF NOT EXISTS settings (\
    key TEXT PRIMARY KEY, \
    value TEXT NOT NULL)";

/// Adds the difficulty to a question table made without it.
pub const ADD_DIFFICULTY: &'static str = "ALTER TABLE questions ADD COLUMN difficulty INTEGER";

/// Adds the topic to a question table made without it.
pub const ADD_TOPIC: &'static str = "ALTER TABLE questions ADD COLUMN topic TEXT";

/// Adds the cached answer key to the tests.
pub const ADD_ANSWER_KEY: &'static str = "ALTER TABLE tests ADD COLUMN answer_key TEXT";

/// A statement without placeholders.
pub open spec fn plain_statement(sql: Seq<char>) -> StatementView {
    StatementView { sql, params: Seq::empty() }
}

/// The statements that create the tables, in the order in which they run.
/// Each leaves a table that exists as it is.
pub open spec fn table_statements() -> Seq<StatementView> {
    seq![
        plain_statement(CREATE_QUESTIONS@),
        plain_statement(CREATE_TEMPLATES@),
        plain_statement(CREATE_STUDENTS@),
        plain_statement(CREATE_SOLVED@),
        plain_statement(CREATE_TESTS@),
        plain_statement(CREATE_MEMBERS@),
        plain_statement(CREATE_SETTINGS@),
    ]
}

/// The statements that set a store up, in the order in which they run:
/// references are switched on, then the tables are created.
pub open spec fn setup_statements() -> Seq<StatementView> {
    seq![plain_statement(ENFORCE_REFERENCES@)] + table_statements()
}

/// The statements that add the later columns, in the order in which they
/// are tried.
pub open spec fn migration_statements() -> Seq<StatementView> {
    seq![
        plain_statement(ADD_DIFFICULTY@),
        plain_statement(ADD_TOPIC@),
        plain_statement(ADD_ANSWER_KEY@),
    ]
}

/// Builds [`plain_statement`].
fn plain(sql: &str) -> (s: Statement)
    ensures
        s@ == plain_statement(sql@),
{
    let params: Vec<Param> = Vec::new();
    assert(params.deep_view() =~= Seq::empty());
    Statement::new(sql, params)
}

/// Builds [`table_statements`].
pub fn tables() -> (v: Vec<Statement>)
    ensures
        v.deep_view() == table_statements(),
{
    let mut v: Vec<Statement> = Vec::new();
    v.push(plain(CREATE_QUESTIONS));
    v.push(plain(CREATE_TEMPLATES));
    v.push(plain(CREATE_STUDENTS));
    v.push(plain(CREATE_SOLVED));
    v.push(plain(CREATE_TESTS));
    v.push(plain(CREATE_MEMBERS));
    v.push(plain(CREATE_SETTINGS));
    assert(v.deep_view() =~= table_statements());
    v
}

/// Builds [`setup_statements`].
pub fn setup() -> (v: Vec<Statement>)
    ensures
        v.deep_view() == setup_statements(),
{
    let mut v: Vec<Statement> = Vec::new();
    v.push(plain(ENFORCE_REFERENCES));
    let mut created = tables();
    let ghost first = v.deep_view();
    let ghost rest = created.deep_view();
    v.append(&mut created);
    assert(v.deep_view() =~= first + rest);
    assert(first =~= seq![plain_statement(ENFORCE_REFERENCES@)]);
    v
}

/// Builds [`migration_statements`].
pub fn migrations() -> (v: Vec<Statement>)
    ensures
        v.deep_view() == migration_statements(),
{
    let mut v: Vec<Statement> = Vec::new();
    v.push(plain(ADD_DIFFICULTY));
    v.push(plain(ADD_TOPIC));
    v.push(plain(ADD_ANSWER_KEY));
    assert(v.deep_view() =~= migration_statements());
    v
}

} // verus!
