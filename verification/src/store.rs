//! The repository: typed operations on the store, each made of statements
//! handed to the one connection that a [`Database`] owns.
//!
//! What the store answers is outside this library. What the library does
//! is choose the statements and read the answers. So a `Database` has the
//! history of its exchanges with the connection, and the contract of
//! every operation says two things: by which exchanges the history has
//! grown, and how the result follows from the answers in them. The
//! history is kept where the calls are made; nothing here can write it.

use crate::archive;
use crate::clock::local_minute;
use crate::connection::Session;
use crate::error::{
    fails_as_reported, reported_by_connection, viewed, StorageError, StorageErrorView,
};
use crate::history::{
    all_done, all_tried, counted_answer, done, done_until_failure, executed, failed, inserted,
    last_answer, looked_up_answer, opened_at, ran, read_answer, Answer, Exchange,
};
use crate::query::{self, QuestionFilter, QuestionFilterView, Statement, StatementView};
use crate::question::{self, Question, QuestionView};
use crate::row::{read_count, read_looked_up_text, read_rows};
use crate::schema;
use crate::setting;
use crate::student;
use crate::template::{self, Template};
use crate::transaction;
use crate::value::Cell;
use vstd::prelude::*;

verus! {

/// One idempotent mark for each question, in order.
pub open spec fn mark_statements(student_id: i32, question_ids: Seq<i32>) -> Seq<StatementView> {
    Seq::new(
        question_ids.len(),
        |i: int| student::mark_solved_statement(student_id, question_ids[i]),
    )
}

/// One membership for each question, in order.
pub open spec fn member_statements(test_id: i64, question_ids: Seq<i32>) -> Seq<StatementView> {
    Seq::new(question_ids.len(), |i: int| archive::add_member_statement(test_id, question_ids[i]))
}

/// The filter of a listing: search, topic and difficulty, and no student.
pub open spec fn listing_filter(
    search: Seq<char>,
    topic: Option<Seq<char>>,
    difficulty: Option<i32>,
) -> QuestionFilterView {
    QuestionFilterView { search, topic, difficulty, unsolved_by: None }
}

/// The filter of a random draw: topic, difficulty and student, and no
/// search.
pub open spec fn sampling_filter(
    topic: Option<Seq<char>>,
    difficulty: Option<i32>,
    student_id: Option<i32>,
) -> QuestionFilterView {
    QuestionFilterView { search: Seq::empty(), topic, difficulty, unsolved_by: student_id }
}

/// How questions are marked as solved: one mark for each, in order, none
/// after one that failed. The result is the first failure, if any.
pub open spec fn marked(
    before: Seq<Exchange>,
    after: Seq<Exchange>,
    student_id: i32,
    question_ids: Seq<i32>,
    result: Result<(), StorageErrorView>,
) -> bool {
    let marks = mark_statements(student_id, question_ids);
    match result {
        Ok(_) => after == before + all_done(marks),
        Err(e) => exists|n: int|
            0 <= n < question_ids.len() && after == before
                + #[trigger] done_until_failure(marks, n, e),
    }
}

/// How a store is set up: references are switched on and the tables are
/// made, each statement in order, none after one that failed; then, if
/// all of that stands, every later column is tried, whatever the answer.
pub open spec fn initialized(
    before: Seq<Exchange>,
    after: Seq<Exchange>,
    result: Result<(), StorageErrorView>,
) -> bool {
    match result {
        Ok(_) => exists|answers: Seq<Answer>|
            after == before + all_done(schema::setup_statements())
                + #[trigger] all_tried(schema::migration_statements(), answers),
        Err(e) => exists|n: int|
            0 <= n < schema::setup_statements().len()
                && after == before
                + #[trigger] done_until_failure(schema::setup_statements(), n, e),
    }
}

/// A run of exchanges that was given up: it ends with the rollback,
/// whatever the rollback was answered.
pub open spec fn rolled_back(run: Seq<Exchange>, undone: Answer) -> Seq<Exchange> {
    run.push(Exchange::Ran { statement: transaction::rollback_statement(), answer: undone })
}

/// How a test is saved, given the `stamp` of the time that names it, the
/// id that the store answers, where a membership fails the number `n` of
/// memberships before it, and where the run is given up the answer
/// `undone` to the rollback.
pub open spec fn test_saved_with(
    before: Seq<Exchange>,
    after: Seq<Exchange>,
    student_id: Option<i32>,
    question_ids: Seq<i32>,
    result: Result<i64, StorageErrorView>,
    stamp: Seq<char>,
    id: i64,
    n: int,
    undone: Answer,
) -> bool {
    let insert = archive::insert_test_statement(student_id, archive::test_name_text(stamp));
    let members = member_statements(id, question_ids);
    let begun = before.push(done(transaction::begin_statement()));
    let named = begun.push(done(insert)).push(Exchange::RowId { id });
    let filled = named + all_done(members);
    &&& archive::is_minute_stamp(stamp)
    &&& match result {
        Ok(test_id) => test_id == id && after == filled.push(
            done(transaction::commit_statement()),
        ),
        Err(e) => {
            ||| after == before.push(failed(transaction::begin_statement(), e))
            ||| after == rolled_back(begun.push(failed(insert, e)), undone)
            ||| 0 <= n < question_ids.len() && after == rolled_back(
                named + done_until_failure(members, n, e),
                undone,
            )
            ||| after == rolled_back(
                filled.push(failed(transaction::commit_statement(), e)),
                undone,
            )
        },
    }
}

/// How a test is saved: in one transaction. The transaction is begun;
/// the test is inserted under a name made from the stamp of some time;
/// its id is asked for; one membership is inserted for each question, in
/// order; the transaction is committed, and the result is the id. The
/// first statement that fails is the result instead: none follows it but
/// the rollback, which undoes what was written since the begin. Where
/// the begin itself fails there is nothing to undo.
pub open spec fn test_saved(
    before: Seq<Exchange>,
    after: Seq<Exchange>,
    student_id: Option<i32>,
    question_ids: Seq<i32>,
    result: Result<i64, StorageErrorView>,
) -> bool {
    exists|stamp: Seq<char>, id: i64, n: int, undone: Answer| #[trigger]
        test_saved_with(before, after, student_id, question_ids, result, stamp, id, n, undone)
}

/// The questions of a page together with the number of all that match.
pub open spec fn with_total(
    page: Result<Seq<QuestionView>, StorageErrorView>,
    total: i32,
) -> Result<(Seq<QuestionView>, i32), StorageErrorView> {
    match page {
        Ok(questions) => Ok((questions, total)),
        Err(e) => Err(e),
    }
}

/// How a page is listed, given what the count and the page were answered.
pub open spec fn listed_with(
    before: Seq<Exchange>,
    after: Seq<Exchange>,
    filter: QuestionFilterView,
    page: i32,
    limit: i32,
    result: Result<(Seq<QuestionView>, i32), StorageErrorView>,
    count_answer: Answer,
    page_answer: Answer,
) -> bool {
    let count = Exchange::Ran { statement: query::count_statement(filter), answer: count_answer };
    let rows = Exchange::Ran {
        statement: query::page_statement(filter, page, limit),
        answer: page_answer,
    };
    match counted_answer(count_answer) {
        Err(e) => after == before.push(count) && result == Err::<(Seq<QuestionView>, i32), _>(e),
        Ok(total) => after == before.push(count).push(rows) && result == with_total(
            read_answer::<Question>(page_answer),
            total,
        ),
    }
}

/// How a page is listed: the count is asked for first. Where it is
/// answered with a number, the page is asked for with the same filter,
/// and the result is the page's questions with that number; any failure
/// is the result, and after a failed count the page is not asked for.
pub open spec fn listed(
    before: Seq<Exchange>,
    after: Seq<Exchange>,
    filter: QuestionFilterView,
    page: i32,
    limit: i32,
    result: Result<(Seq<QuestionView>, i32), StorageErrorView>,
) -> bool {
    exists|count_answer: Answer, page_answer: Answer| #[trigger]
        listed_with(before, after, filter, page, limit, result, count_answer, page_answer)
}

/// The store, behind its one connection.
pub struct Database {
    session: Session,
}

impl Database {
    /// The exchanges with the connection so far, oldest first: the
    /// opening, then every statement run and every row id asked for.
    pub closed spec fn history(&self) -> Seq<Exchange> {
        self.session.history()
    }

    /// What the statement run last was answered.
    pub open spec fn last_answer(&self) -> Answer {
        last_answer(self.history())
    }

    /// Since `before`, one statement was run: `statement`.
    pub open spec fn ran(&self, before: Seq<Exchange>, statement: StatementView) -> bool {
        ran(before, self.history(), statement)
    }

    /// Hands a statement that returns no rows to the connection.
    fn execute(&mut self, statement: &Statement) -> (r: Result<(), StorageError>)
        ensures
            final(self).history() == old(self).history().push(executed(statement@, viewed(r))),
            fails_as_reported(viewed(r)),
    {
        self.session.execute(statement)
    }

    /// Hands a statement to the connection and collects its rows.
    fn query(&mut self, statement: &Statement) -> (r: Result<Vec<Vec<Cell>>, StorageError>)
        ensures
            final(self).ran(old(self).history(), statement@),
            final(self).last_answer() == viewed(r),
            fails_as_reported(viewed(r)),
    {
        self.session.query(statement)
    }

    /// Hands an insert to the connection and asks for the id of the row.
    fn insert(&mut self, statement: &Statement) -> (r: Result<i64, StorageError>)
        ensures
            final(self).history() == old(self).history() + inserted(statement@, viewed(r)),
            fails_as_reported(viewed(r)),
    {
        self.session.insert(statement)
    }

    /// Opens the store at `path`, creating the file where it is missing.
    /// The opening is the first exchange with the connection. Where the
    /// store cannot be opened, the failure is the one that the connection
    /// reported.
    pub fn new(path: &str) -> (r: Result<Database, StorageError>)
        ensures
            r matches Ok(db) ==> db.history() == opened_at(path@),
            r matches Err(e) ==> reported_by_connection(e@),
    {
        match Session::open(path) {
            Ok(session) => Ok(Database { session }),
            Err(e) => Err(e),
        }
    }

    /// Switches references on, creates the tables that are missing, then
    /// tries each later column: [`initialized`]. A statement of the setup
    /// that fails ends the run with its failure. A column that cannot be
    /// added is passed over: on a store that has it already, adding it
    /// fails.
    pub fn init(&mut self) -> (r: Result<(), StorageError>)
        ensures
            initialized(old(self).history(), final(self).history(), viewed(r)),
            fails_as_reported(viewed(r)),
    {
        let tables = schema::setup();
        let mut i: usize = 0;
        assert(self.history() =~= old(self).history() + all_done(
            schema::setup_statements().take(0),
        ));
        while i < tables.len()
            invariant
                i <= tables.len(),
                tables.deep_view() == schema::setup_statements(),
                self.history() == old(self).history() + all_done(
                    schema::setup_statements().take(i as int),
                ),
            decreases tables.len() - i,
        {
            assert(tables.deep_view()[i as int] == tables[i as int]@);
            match self.execute(&tables[i]) {
                Ok(_) => {
                    assert(self.history() =~= old(self).history() + all_done(
                        schema::setup_statements().take(i as int + 1),
                    ));
                },
                Err(e) => {
                    assert(self.history() =~= old(self).history() + done_until_failure(
                        schema::setup_statements(),
                        i as int,
                        e@,
                    ));
                    return Err(e);
                },
            }
            i += 1;
        }
        assert(schema::setup_statements().take(i as int) =~= schema::setup_statements());
        let migrations = schema::migrations();
        let ghost made = self.history();
        let ghost mut answers: Seq<Answer> = Seq::empty();
        let mut j: usize = 0;
        assert(self.history() =~= made + all_tried(
            schema::migration_statements().take(0),
            answers,
        ));
        while j < migrations.len()
            invariant
                j <= migrations.len(),
                migrations.deep_view() == schema::migration_statements(),
                answers.len() == j,
                self.history() == made + all_tried(
                    schema::migration_statements().take(j as int),
                    answers,
                ),
            decreases migrations.len() - j,
        {
            assert(migrations.deep_view()[j as int] == migrations[j as int]@);
            let ghost before = self.history();
            let tried = self.execute(&migrations[j]);
            proof {
                let answer = match viewed(tried) {
                    Ok(_) => Ok(Seq::empty()),
                    Err(e) => Err(e),
                };
                assert(self.history() == before.push(
                    Exchange::Ran { statement: migrations[j as int]@, answer },
                ));
                answers = answers.push(answer);
                assert(self.history() =~= made + all_tried(
                    schema::migration_statements().take(j as int + 1),
                    answers,
                ));
            }
            j += 1;
        }
        assert(schema::migration_statements().take(j as int) =~= schema::migration_statements());
        Ok(())
    }

    /// Gives up the transaction that was begun: asks for the rollback and
    /// passes over its answer.
    fn give_up(&mut self)
        ensures
            final(self).history() == rolled_back(old(self).history(), final(self).last_answer()),
    {
        let _ = self.execute(&transaction::rollback());
    }

    /// Stores a test of the given questions, for a student or for none,
    /// under a name made from the local time, and returns the id that the
    /// store assigned: [`test_saved`]. The test and its memberships are
    /// written in one transaction, so that a failure leaves none of them.
    pub fn save_test(&mut self, student_id: Option<i32>, question_ids: Vec<i32>) -> (r: Result<
        i64,
        StorageError,
    >)
        ensures
            test_saved(
                old(self).history(),
                final(self).history(),
                student_id,
                question_ids@,
                viewed(r),
            ),
            fails_as_reported(viewed(r)),
    {
        let stamp = local_minute();
        let name = archive::test_name(stamp.as_str());
        let statement = archive::insert_test(student_id, name.as_str());
        let ghost insert = archive::insert_test_statement(
            student_id,
            archive::test_name_text(stamp@),
        );
        let ghost first = old(self).history();
        match self.execute(&transaction::begin()) {
            Ok(_) => {},
            Err(e) => {
                assert(test_saved_with(
                    first,
                    self.history(),
                    student_id,
                    question_ids@,
                    Err(e@),
                    stamp@,
                    0,
                    0,
                    Ok(Seq::empty()),
                ));
                return Err(e);
            },
        }
        let ghost begun = first.push(done(transaction::begin_statement()));
        let test_id: i64 = match self.insert(&statement) {
            Ok(id) => id,
            Err(e) => {
                assert(self.history() =~= begun.push(failed(insert, e@)));
                self.give_up();
                assert(test_saved_with(
                    first,
                    self.history(),
                    student_id,
                    question_ids@,
                    Err(e@),
                    stamp@,
                    0,
                    0,
                    self.last_answer(),
                ));
                return Err(e);
            },
        };
        let ghost named = begun.push(done(insert)).push(Exchange::RowId { id: test_id });
        let ghost members = member_statements(test_id, question_ids@);
        assert(self.history() =~= named + all_done(members.take(0)));
        let mut i: usize = 0;
        while i < question_ids.len()
            invariant
                i <= question_ids.len(),
                archive::is_minute_stamp(stamp@),
                first == old(self).history(),
                insert == archive::insert_test_statement(
                    student_id,
                    archive::test_name_text(stamp@),
                ),
                begun == first.push(done(transaction::begin_statement())),
                named == begun.push(done(insert)).push(Exchange::RowId { id: test_id }),
                members == member_statements(test_id, question_ids@),
                self.history() == named + all_done(members.take(i as int)),
            decreases question_ids.len() - i,
        {
            let member = archive::add_member(test_id, question_ids[i]);
            match self.execute(&member) {
                Ok(_) => {
                    assert(self.history() =~= named + all_done(members.take(i as int + 1)));
                },
                Err(e) => {
                    assert(self.history() =~= named + done_until_failure(members, i as int, e@));
                    self.give_up();
                    assert(test_saved_with(
                        first,
                        self.history(),
                        student_id,
                        question_ids@,
                        Err(e@),
                        stamp@,
                        test_id,
                        i as int,
                        self.last_answer(),
                    ));
                    return Err(e);
                },
            }
            i += 1;
        }
        assert(members.take(i as int) =~= members);
        let ghost filled = named + all_done(members);
        match self.execute(&transaction::commit()) {
            Ok(_) => {
                assert(test_saved_with(
                    first,
                    self.history(),
                    student_id,
                    question_ids@,
                    Ok(test_id),
                    stamp@,
                    test_id,
                    0,
                    Ok(Seq::empty()),
                ));
                Ok(test_id)
            },
            Err(e) => {
                assert(self.history() =~= filled.push(
                    failed(transaction::commit_statement(), e@),
                ));
                self.give_up();
                assert(test_saved_with(
                    first,
                    self.history(),
                    student_id,
                    question_ids@,
                    Err(e@),
                    stamp@,
                    test_id,
                    0,
                    self.last_answer(),
                ));
                Err(e)
            },
        }
    }

    /// Lists the tests, newest first: id, creation time, the student's
    /// name if the test still has a student, and the number of member
    /// questions.
    pub fn list_tests(&mut self) -> (r: Result<
        Vec<(i32, String, Option<String>, i32)>,
        StorageError,
    >)
        ensures
            final(self).ran(old(self).history(), archive::tests_statement()),
            viewed(r) == read_answer::<(i32, String, Option<String>, i32)>(
                final(self).last_answer(),
            ),
    {
        let rows = self.query(&archive::select_tests())?;
        read_rows(&rows)
    }

    /// Reads the member questions of a test.
    pub fn get_test_questions(&mut self, test_id: i32) -> (r: Result<Vec<Question>, StorageError>)
        ensures
            final(self).ran(old(self).history(), archive::test_questions_statement(test_id)),
            viewed(r) == read_answer::<Question>(final(self).last_answer()),
    {
        let rows = self.query(&archive::select_test_questions(test_id))?;
        read_rows(&rows)
    }

    /// Reads the cached answer key of a test: absent where the test has
    /// none yet, or where there is no such test.
    pub fn get_test_answer_key(&mut self, test_id: i32) -> (r: Result<
        Option<String>,
        StorageError,
    >)
        ensures
            final(self).ran(old(self).history(), archive::answer_key_statement(test_id)),
            viewed(r) == looked_up_answer(final(self).last_answer()),
    {
        let rows = self.query(&archive::select_answer_key(test_id))?;
        read_looked_up_text(&rows)
    }

    /// Stores the answer key of a test.
    pub fn save_test_answer_key(&mut self, test_id: i32, key: String) -> (r: Result<
        (),
        StorageError,
    >)
        ensures
            final(self).history() == old(self).history().push(
                executed(archive::save_answer_key_statement(test_id, key@), viewed(r)),
            ),
            fails_as_reported(viewed(r)),
    {
        self.execute(&archive::save_answer_key(test_id, key.as_str()))
    }

    /// Stores a student and returns the id that the store assigned.
    pub fn add_student(&mut self, name: String) -> (r: Result<i64, StorageError>)
        ensures
            final(self).history() == old(self).history() + inserted(
                student::add_student_statement(name@),
                viewed(r),
            ),
            fails_as_reported(viewed(r)),
    {
        self.insert(&student::add_student(name.as_str()))
    }

    /// Lists the students, in alphabetical order: id and name.
    pub fn list_students(&mut self) -> (r: Result<Vec<(i32, String)>, StorageError>)
        ensures
            final(self).ran(old(self).history(), student::students_statement()),
            viewed(r) == read_answer::<(i32, String)>(final(self).last_answer()),
    {
        let rows = self.query(&student::select_students())?;
        read_rows(&rows)
    }

    /// Deletes a student.
    pub fn delete_student(&mut self, id: i32) -> (r: Result<(), StorageError>)
        ensures
            final(self).history() == old(self).history().push(
                executed(student::delete_student_statement(id), viewed(r)),
            ),
            fails_as_reported(viewed(r)),
    {
        self.execute(&student::delete_student(id))
    }

    /// Marks each question as solved by the student, in order, with a
    /// statement that leaves a pair already marked as it is: [`marked`].
    /// The first statement that fails ends the run with its failure.
    pub fn mark_test_solved(&mut self, student_id: i32, question_ids: Vec<i32>) -> (r: Result<
        (),
        StorageError,
    >)
        ensures
            marked(
                old(self).history(),
                final(self).history(),
                student_id,
                question_ids@,
                viewed(r),
            ),
            fails_as_reported(viewed(r)),
    {
        let ghost marks = mark_statements(student_id, question_ids@);
        let mut i: usize = 0;
        assert(self.history() =~= old(self).history() + all_done(marks.take(0)));
        while i < question_ids.len()
            invariant
                i <= question_ids.len(),
                marks == mark_statements(student_id, question_ids@),
                self.history() == old(self).history() + all_done(marks.take(i as int)),
            decreases question_ids.len() - i,
        {
            let mark = student::mark_solved(student_id, question_ids[i]);
            match self.execute(&mark) {
                Ok(_) => {
                    assert(self.history() =~= old(self).history() + all_done(
                        marks.take(i as int + 1),
                    ));
                },
                Err(e) => {
                    assert(self.history() =~= old(self).history() + done_until_failure(
                        marks,
                        i as int,
                        e@,
                    ));
                    return Err(e);
                },
            }
            i += 1;
        }
        assert(marks.take(i as int) =~= marks);
        Ok(())
    }

    /// Stores a template and returns the id that the store assigned.
    pub fn save_template(&mut self, t: &Template) -> (r: Result<i64, StorageError>)
        ensures
            final(self).history() == old(self).history() + inserted(
                template::insert_template_statement(t@),
                viewed(r),
            ),
            fails_as_reported(viewed(r)),
    {
        self.insert(&template::insert_template(t))
    }

    /// Renames a template and replaces its margins.
    pub fn update_template(&mut self, id: i32, name: String, margins_json: String) -> (r: Result<
        (),
        StorageError,
    >)
        ensures
            final(self).history() == old(self).history().push(
                executed(
                    template::update_template_statement(id, name@, margins_json@),
                    viewed(r),
                ),
            ),
            fails_as_reported(viewed(r)),
    {
        self.execute(&template::update_template(id, name.as_str(), margins_json.as_str()))
    }

    /// Lists the templates, newest first.
    pub fn get_templates(&mut self) -> (r: Result<Vec<Template>, StorageError>)
        ensures
            final(self).ran(old(self).history(), template::templates_statement()),
            viewed(r) == read_answer::<Template>(final(self).last_answer()),
    {
        let rows = self.query(&template::select_templates())?;
        read_rows(&rows)
    }

    /// Deletes a template.
    pub fn delete_template(&mut self, id: i32) -> (r: Result<(), StorageError>)
        ensures
            final(self).history() == old(self).history().push(
                executed(template::delete_template_statement(id), viewed(r)),
            ),
            fails_as_reported(viewed(r)),
    {
        self.execute(&template::delete_template(id))
    }

    /// Stores a question and returns the id that the store assigned. A
    /// question without text is refused before anything reaches the store.
    pub fn insert_question(&mut self, q: &Question) -> (r: Result<i64, StorageError>)
        ensures
            q.text@.len() == 0 ==> final(self).history() == old(self).history() && viewed(r)
                == Err::<i64, _>(StorageErrorView::Constraint(question::EMPTY_TEXT@)),
            q.text@.len() > 0 ==> final(self).history() == old(self).history() + inserted(
                question::insert_question_statement(q@),
                viewed(r),
            ),
            q.text@.len() > 0 ==> fails_as_reported(viewed(r)),
    {
        if q.text.as_str().is_empty() {
            return Err(StorageError::Constraint(String::from_str(question::EMPTY_TEXT)));
        }
        self.insert(&question::insert_question(q))
    }

    /// Reads one page of the questions that match the given predicates,
    /// newest first, and the number of all questions that match them:
    /// [`listed`].
    pub fn get_questions_paginated(
        &mut self,
        page: i32,
        limit: i32,
        search: String,
        topic: Option<String>,
        difficulty: Option<i32>,
    ) -> (r: Result<(Vec<Question>, i32), StorageError>)
        ensures
            listed(
                old(self).history(),
                final(self).history(),
                listing_filter(search@, topic.deep_view(), difficulty),
                page,
                limit,
                viewed(r),
            ),
    {
        let ghost filter_view = listing_filter(search@, topic.deep_view(), difficulty);
        let filter = QuestionFilter { search, topic, difficulty, unsolved_by: None };
        let counted = self.query(&query::count_questions(&filter));
        let ghost count_answer = self.last_answer();
        let total = match counted {
            Ok(rows) => read_count(&rows),
            Err(e) => Err(e),
        };
        let total: i32 = match total {
            Ok(total) => total,
            Err(e) => {
                assert(listed_with(
                    old(self).history(),
                    self.history(),
                    filter_view,
                    page,
                    limit,
                    Err(e@),
                    count_answer,
                    count_answer,
                ));
                return Err(e);
            },
        };
        let found = self.query(&query::page_of_questions(&filter, page, limit));
        let ghost page_answer = self.last_answer();
        let r = match found {
            Ok(rows) => match read_rows::<Question>(&rows) {
                Ok(questions) => Ok((questions, total)),
                Err(e) => Err(e),
            },
            Err(e) => Err(e),
        };
        assert(listed_with(
            old(self).history(),
            self.history(),
            filter_view,
            page,
            limit,
            viewed(r),
            count_answer,
            page_answer,
        ));
        r
    }

    /// Reads every question, newest first.
    pub fn get_all_questions(&mut self) -> (r: Result<Vec<Question>, StorageError>)
        ensures
            final(self).ran(old(self).history(), question::all_questions_statement()),
            viewed(r) == read_answer::<Question>(final(self).last_answer()),
    {
        let rows = self.query(&question::select_all_questions())?;
        read_rows(&rows)
    }

    /// Reads the questions with the given ids, newest first. For an empty
    /// list the result is empty and nothing is asked of the store.
    pub fn get_questions_by_ids(&mut self, ids: Vec<i32>) -> (r: Result<
        Vec<Question>,
        StorageError,
    >)
        ensures
            ids@.len() == 0 ==> final(self).history() == old(self).history() && viewed(r) == Ok::<
                _,
                StorageErrorView,
            >(Seq::<QuestionView>::empty()),
            ids@.len() > 0 ==> final(self).ran(old(self).history(), query::by_ids_statement(ids@))
                && viewed(r) == read_answer::<Question>(final(self).last_answer()),
    {
        match query::questions_by_ids(&ids) {
            None => {
                let none: Vec<Question> = Vec::new();
                assert(none.deep_view() =~= Seq::<QuestionView>::empty());
                Ok(none)
            },
            Some(statement) => {
                let rows = self.query(&statement)?;
                read_rows(&rows)
            },
        }
    }

    /// Lists the topics in use, each once, in alphabetical order.
    pub fn get_unique_topics(&mut self) -> (r: Result<Vec<String>, StorageError>)
        ensures
            final(self).ran(old(self).history(), question::topics_statement()),
            viewed(r) == read_answer::<String>(final(self).last_answer()),
    {
        let rows = self.query(&question::select_topics())?;
        read_rows(&rows)
    }

    /// Draws at most `count` of the questions that match the given
    /// predicates, in random order; with a student, the questions that
    /// this student has solved are left out.
    pub fn get_random_questions(
        &mut self,
        topic: Option<String>,
        difficulty: Option<i32>,
        count: i32,
        student_id: Option<i32>,
    ) -> (r: Result<Vec<Question>, StorageError>)
        ensures
            final(self).ran(
                old(self).history(),
                query::random_statement(
                    sampling_filter(topic.deep_view(), difficulty, student_id),
                    count,
                ),
            ),
            viewed(r) == read_answer::<Question>(final(self).last_answer()),
    {
        let filter = QuestionFilter {
            search: String::new(),
            topic,
            difficulty,
            unsolved_by: student_id,
        };
        let rows = self.query(&query::random_questions(&filter, count))?;
        read_rows(&rows)
    }

    /// Deletes a question.
    pub fn delete_question(&mut self, id: i32) -> (r: Result<(), StorageError>)
        ensures
            final(self).history() == old(self).history().push(
                executed(question::delete_question_statement(id), viewed(r)),
            ),
            fails_as_reported(viewed(r)),
    {
        self.execute(&question::delete_question(id))
    }

    /// Deletes the questions with the given ids in one statement. For an
    /// empty list nothing is asked of the store.
    pub fn delete_questions(&mut self, ids: Vec<i32>) -> (r: Result<(), StorageError>)
        ensures
            ids@.len() == 0 ==> final(self).history() == old(self).history() && r is Ok,
            ids@.len() > 0 ==> final(self).history() == old(self).history().push(
                executed(query::delete_by_ids_statement(ids@), viewed(r)),
            ),
            fails_as_reported(viewed(r)),
    {
        match query::delete_questions_by_ids(&ids) {
            None => Ok(()),
            Some(statement) => self.execute(&statement),
        }
    }

    /// Reads the value of a setting: absent where the key is not set.
    pub fn get_setting(&mut self, key: &str) -> (r: Result<Option<String>, StorageError>)
        ensures
            final(self).ran(old(self).history(), setting::get_setting_statement(key@)),
            viewed(r) == looked_up_answer(final(self).last_answer()),
    {
        let rows = self.query(&setting::get_setting(key))?;
        read_looked_up_text(&rows)
    }

    /// Sets the value of a setting, whether or not the key was set before.
    pub fn set_setting(&mut self, key: &str, value: &str) -> (r: Result<(), StorageError>)
        ensures
            final(self).history() == old(self).history().push(
                executed(setting::set_setting_statement(key@, value@), viewed(r)),
            ),
            fails_as_reported(viewed(r)),
    {
        self.execute(&setting::set_setting(key, value))
    }
}

} // verus!
