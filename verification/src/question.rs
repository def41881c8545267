//! Questions: the record, the statements that write it, and the reader of
//! its rows.

use crate::query::{Statement, StatementView};
use crate::row::{
    optional_int_at, optional_text_at, read_all, read_optional_int, read_optional_text, read_text,
    text_at, FromRow,
};
use crate::value::{
    optional_integer_param, optional_text_param, Cell, CellView, Param, ParamView,
};
use vstd::prelude::*;

verus! {

/// What the refusal of a question without text says.
pub const EMPTY_TEXT: &'static str = "question text must not be empty";

/// Inserts a question.
pub const INSERT_QUESTION: &'static str = "INSERT INTO questions \
    (text, image_path, image_base64, subject, source_pdf, page_number, difficulty, topic) \
    VALUES (?1, ?2, ?3, ?4, ?5, ?6, ?7, ?8)";

/// Deletes one question.
pub const DELETE_QUESTION: &'static str = "DELETE FROM questions WHERE id = ?1";

/// Orders a listing by creation time, newest first, and then by id.
pub const NEWEST_FIRST: &'static str = " ORDER BY created_at DESC, id DESC";

/// Lists the topics in use, each once, in alphabetical order.
pub const SELECT_TOPICS: &'static str = "SELECT DISTINCT topic FROM questions \
    WHERE topic IS NOT NULL AND topic != '' \
    ORDER BY topic ASC";

/// An exam question. `id` is assigned by the store and absent until the
/// question has been inserted.
#[derive(Debug, Clone, PartialEq, Eq)]
pub struct Question {
    pub id: Option<i32>,
    pub text: String,
    pub image_path: String,
    pub image_base64: Option<String>,
    pub subject: Option<String>,
    pub source_pdf: Option<String>,
    pub page_number: Option<i32>,
    pub difficulty: Option<i32>,
    pub topic: Option<String>,
}

/// The mathematical value of a [`Question`].
pub struct QuestionView {
    pub id: Option<i32>,
    pub text: Seq<char>,
    pub image_path: Seq<char>,
    pub image_base64: Option<Seq<char>>,
    pub subject: Option<Seq<char>>,
    pub source_pdf: Option<Seq<char>>,
    pub page_number: Option<i32>,
    pub difficulty: Option<i32>,
    pub topic: Option<Seq<char>>,
}

impl DeepView for Question {
    type V = QuestionView;

    open spec fn deep_view(&self) -> QuestionView {
        QuestionView {
            id: self.id,
            text: self.text@,
            image_path: self.image_path@,
            image_base64: self.image_base64.deep_view(),
            subject: self.subject.deep_view(),
            source_pdf: self.source_pdf.deep_view(),
            page_number: self.page_number,
            difficulty: self.difficulty,
            topic: self.topic.deep_view(),
        }
    }
}

impl View for Question {
    type V = QuestionView;

    open spec fn view(&self) -> QuestionView {
        self.deep_view()
    }
}

/// The difficulty of a question for which none is known.
pub const DEFAULT_DIFFICULTY: i32 = 3;

/// The difficulty to record: the one given, or the default.
pub open spec fn difficulty_or_default(d: Option<i32>) -> i32 {
    match d {
        Some(v) => v,
        None => DEFAULT_DIFFICULTY,
    }
}

/// A question as it is captured from a page of a document, before it has
/// been stored.
pub open spec fn captured_question(
    text: Seq<char>,
    image: Seq<char>,
    base64: Seq<char>,
    pdf: Seq<char>,
    page: i32,
    difficulty: Option<i32>,
    topic: Option<Seq<char>>,
) -> QuestionView {
    QuestionView {
        id: None,
        text,
        image_path: image,
        image_base64: Some(base64),
        subject: None,
        source_pdf: Some(pdf),
        page_number: Some(page),
        difficulty: Some(difficulty_or_default(difficulty)),
        topic,
    }
}

/// The statement that inserts a question. The store assigns the id and the
/// creation time.
pub open spec fn insert_question_statement(q: QuestionView) -> StatementView {
    StatementView {
        sql: INSERT_QUESTION@,
        params: seq![
            ParamView::Text(q.text),
            ParamView::Text(q.image_path),
            optional_text_param(q.image_base64),
            optional_text_param(q.subject),
            optional_text_param(q.source_pdf),
            optional_integer_param(q.page_number),
            optional_integer_param(q.difficulty),
            optional_text_param(q.topic),
        ],
    }
}

/// The statement that deletes one question.
pub open spec fn delete_question_statement(id: i32) -> StatementView {
    StatementView {
        sql: DELETE_QUESTION@,
        params: seq![ParamView::Integer(id as i64)],
    }
}

/// The statement that reads every question, newest first.
pub open spec fn all_questions_statement() -> StatementView {
    StatementView {
        sql: crate::query::SELECT_QUESTIONS@ + NEWEST_FIRST@,
        params: Seq::empty(),
    }
}

/// The statement that lists the topics in use, each once, in alphabetical
/// order.
pub open spec fn topics_statement() -> StatementView {
    StatementView {
        sql: SELECT_TOPICS@,
        params: Seq::empty(),
    }
}

/// The difficulty read from a row: the default where the cell is `NULL`,
/// missing or not a 32-bit integer.
pub open spec fn difficulty_of_row(row: Seq<CellView>) -> i32 {
    match optional_int_at(row, 7) {
        Some(Some(d)) => d,
        _ => DEFAULT_DIFFICULTY,
    }
}

/// The topic read from a row: absent where the cell is `NULL`, missing or
/// not a text.
pub open spec fn topic_of_row(row: Seq<CellView>) -> Option<Seq<char>> {
    match optional_text_at(row, 8) {
        Some(t) => t,
        None => None,
    }
}

/// Whether a row can be read as a question: the first seven cells must
/// have their types. Difficulty and topic never make a row unreadable.
pub open spec fn is_question_row(row: Seq<CellView>) -> bool {
    &&& optional_int_at(row, 0) is Some
    &&& text_at(row, 1) is Some
    &&& text_at(row, 2) is Some
    &&& optional_text_at(row, 3) is Some
    &&& optional_text_at(row, 4) is Some
    &&& optional_text_at(row, 5) is Some
    &&& optional_int_at(row, 6) is Some
}

/// The question that a readable row holds.
pub open spec fn question_of_row(row: Seq<CellView>) -> QuestionView
    recommends
        is_question_row(row),
{
    QuestionView {
        id: optional_int_at(row, 0).unwrap(),
        text: text_at(row, 1).unwrap(),
        image_path: text_at(row, 2).unwrap(),
        image_base64: optional_text_at(row, 3).unwrap(),
        subject: optional_text_at(row, 4).unwrap(),
        source_pdf: optional_text_at(row, 5).unwrap(),
        page_number: optional_int_at(row, 6).unwrap(),
        difficulty: Some(difficulty_of_row(row)),
        topic: topic_of_row(row),
    }
}

impl Question {
    /// Builds [`captured_question`]: a question without a difficulty gets
    /// the default one.
    pub fn captured(
        text: String,
        image: String,
        base64: String,
        pdf: String,
        page: i32,
        difficulty: Option<i32>,
        topic: Option<String>,
    ) -> (q: Question)
        ensures
            q@ == captured_question(
                text@,
                image@,
                base64@,
                pdf@,
                page,
                difficulty,
                topic.deep_view(),
            ),
    {
        let difficulty: i32 = match difficulty {
            Some(d) => d,
            None => DEFAULT_DIFFICULTY,
        };
        Question {
            id: None,
            text,
            image_path: image,
            image_base64: Some(base64),
            subject: None,
            source_pdf: Some(pdf),
            page_number: Some(page),
            difficulty: Some(difficulty),
            topic,
        }
    }
}

/// Builds [`insert_question_statement`].
pub fn insert_question(q: &Question) -> (s: Statement)
    ensures
        s@ == insert_question_statement(q@),
{
    let mut params: Vec<Param> = Vec::new();
    params.push(Param::text(q.text.as_str()));
    params.push(Param::text(q.image_path.as_str()));
    params.push(Param::optional_text(&q.image_base64));
    params.push(Param::optional_text(&q.subject));
    params.push(Param::optional_text(&q.source_pdf));
    params.push(Param::optional_integer(q.page_number));
    params.push(Param::optional_integer(q.difficulty));
    params.push(Param::optional_text(&q.topic));
    assert(params.deep_view() =~= insert_question_statement(q@).params);
    Statement::new(INSERT_QUESTION, params)
}

/// Builds [`delete_question_statement`].
pub fn delete_question(id: i32) -> (s: Statement)
    ensures
        s@ == delete_question_statement(id),
{
    let mut params: Vec<Param> = Vec::new();
    params.push(Param::integer(id));
    assert(params.deep_view() =~= delete_question_statement(id).params);
    Statement::new(DELETE_QUESTION, params)
}

/// Builds [`all_questions_statement`].
pub fn select_all_questions() -> (s: Statement)
    ensures
        s@ == all_questions_statement(),
{
    let params: Vec<Param> = Vec::new();
    assert(params.deep_view() =~= Seq::empty());
    let mut sql = String::from_str(crate::query::SELECT_QUESTIONS);
    sql.append(NEWEST_FIRST);
    Statement { sql, params }
}

/// Builds [`topics_statement`].
pub fn select_topics() -> (s: Statement)
    ensures
        s@ == topics_statement(),
{
    let params: Vec<Param> = Vec::new();
    assert(params.deep_view() =~= Seq::empty());
    Statement::new(SELECT_TOPICS, params)
}

/// A topic's row: one text.
impl FromRow for String {
    open spec fn readable(row: Seq<CellView>) -> bool {
        text_at(row, 0) is Some
    }

    open spec fn of_row(row: Seq<CellView>) -> Seq<char> {
        text_at(row, 0).unwrap()
    }

    fn from_row(row: &Vec<Cell>) -> (r: Option<String>) {
        read_text(row, 0)
    }
}

/// Every question has a difficulty.
pub open spec fn all_have_difficulty(questions: Seq<QuestionView>) -> bool {
    forall|i: int| 0 <= i < questions.len() ==> (#[trigger] questions[i]).difficulty is Some
}

/// Whatever the store holds, a question that was read has a difficulty:
/// the reader supplies the default.
pub proof fn law_questions_read_have_difficulty(rows: Seq<Seq<CellView>>)
    ensures
        read_all::<Question>(rows) matches Ok(questions) ==> all_have_difficulty(questions),
{
}

impl FromRow for Question {
    open spec fn readable(row: Seq<CellView>) -> bool {
        is_question_row(row)
    }

    open spec fn of_row(row: Seq<CellView>) -> QuestionView {
        question_of_row(row)
    }

    fn from_row(row: &Vec<Cell>) -> (r: Option<Question>) {
        let id = match read_optional_int(row, 0) {
            Some(v) => v,
            None => { return None; },
        };
        let text = match read_text(row, 1) {
            Some(v) => v,
            None => { return None; },
        };
        let image_path = match read_text(row, 2) {
            Some(v) => v,
            None => { return None; },
        };
        let image_base64 = match read_optional_text(row, 3) {
            Some(v) => v,
            None => { return None; },
        };
        let subject = match read_optional_text(row, 4) {
            Some(v) => v,
            None => { return None; },
        };
        let source_pdf = match read_optional_text(row, 5) {
            Some(v) => v,
            None => { return None; },
        };
        let page_number = match read_optional_int(row, 6) {
            Some(v) => v,
            None => { return None; },
        };
        let difficulty: i32 = match read_optional_int(row, 7) {
            Some(Some(d)) => d,
            _ => DEFAULT_DIFFICULTY,
        };
        let topic = match read_optional_text(row, 8) {
            Some(t) => t,
            None => None,
        };
        Some(
            Question {
                id,
                text,
                image_path,
                image_base64,
                subject,
                source_pdf,
                page_number,
                difficulty: Some(difficulty),
                topic,
            },
        )
    }
}

} // verus!
