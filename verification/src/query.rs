//! Parameterized statements over the question table, built from optional
//! predicates. A value given by the caller is only ever bound to a
//! placeholder: the text of a statement depends on which predicates are
//! present, never on what they hold.

use crate::text::{
    lemma_occurrences_concat, lemma_occurs_never, lemma_occurs_once, lemma_occurs_twice,
    occurrences,
};
use crate::value::{Param, ParamView};
use vstd::prelude::*;

verus! {

/// Selects the columns of a question, as every statement that reads
/// questions does.
pub const SELECT_QUESTIONS: &'static str = "SELECT id, text, image_path, image_base64, subject, \
    source_pdf, page_number, difficulty, topic \
    FROM questions";

/// Counts questions.
pub const COUNT_QUESTIONS: &'static str = "SELECT COUNT(*) FROM questions";

/// The clause that every question meets: the conjuncts follow it.
pub const WHERE_ANY: &'static str = " WHERE 1=1";

/// The conjunct of a search: the text or the topic matches a pattern, in
/// which the character after a backslash stands for itself.
pub const AND_SEARCH: &'static str =
    " AND (text LIKE ? ESCAPE '\\' OR topic LIKE ? ESCAPE '\\')";

/// The conjunct of a topic.
pub const AND_TOPIC: &'static str = " AND topic = ?";

/// The conjunct of a difficulty.
pub const AND_DIFFICULTY: &'static str = " AND difficulty = ?";

/// The conjunct that leaves out what a student has solved.
pub const AND_UNSOLVED: &'static str = " AND id NOT IN \
    (SELECT question_id FROM student_solved_questions WHERE student_id = ?)";

/// Orders by creation time, newest first, and among questions created at
/// the same time by id, so that the order is the same each time; then
/// cuts out one page.
pub const NEWEST_FIRST_PAGE: &'static str =
    " ORDER BY created_at DESC, id DESC LIMIT ? OFFSET ?";

/// Orders at random and keeps a limited number of rows.
pub const RANDOM_ORDER: &'static str = " ORDER BY RANDOM() LIMIT ?";

/// Opens a list of ids to select by.
pub const WHERE_ID_IN: &'static str = " WHERE id IN (";

/// Closes a list of ids and orders by creation time, newest first, and
/// then by id.
pub const NEWEST_FIRST_OF_IDS: &'static str = ") ORDER BY created_at DESC, id DESC";

/// Deletes questions by a list of ids, which it opens.
pub const DELETE_WHERE_ID_IN: &'static str = "DELETE FROM questions WHERE id IN (";

/// One placeholder.
pub const PLACEHOLDER: &'static str = "?";

/// A comma and one more placeholder.
pub const NEXT_PLACEHOLDER: &'static str = ",?";

/// Closes a list of ids.
pub const CLOSE_IDS: &'static str = ")";

/// The wildcard of a pattern: any text.
pub const ANY_TEXT: &'static str = "%";

/// Stands in a pattern before a character that is to stand for itself.
pub const ESCAPE: &'static str = "\\";

/// A statement and the values bound to its placeholders, in order.
#[derive(Debug, Clone, PartialEq, Eq)]
pub struct Statement {
    pub sql: String,
    pub params: Vec<Param>,
}

/// The mathematical value of a [`Statement`].
pub struct StatementView {
    pub sql: Seq<char>,
    pub params: Seq<ParamView>,
}

impl DeepView for Statement {
    type V = StatementView;

    open spec fn deep_view(&self) -> StatementView {
        StatementView { sql: self.sql@, params: self.params.deep_view() }
    }
}

impl View for Statement {
    type V = StatementView;

    open spec fn view(&self) -> StatementView {
        self.deep_view()
    }
}

impl Statement {
    /// A statement from its text and its bound values.
    pub fn new(sql: &str, params: Vec<Param>) -> (s: Statement)
        ensures
            s@ == (StatementView { sql: sql@, params: params.deep_view() }),
    {
        Statement { sql: String::from_str(sql), params }
    }
}

/// The statement binds a value to each of its placeholders: it has as many
/// placeholders as values.
pub open spec fn binds_each_placeholder(s: StatementView) -> bool {
    occurrences(s.sql, '?') == s.params.len()
}

/// The optional predicates on questions. They combine with AND, and one
/// that is absent contributes nothing. An empty `search` is absent.
#[derive(Debug, Clone, PartialEq, Eq)]
pub struct QuestionFilter {
    /// Text that the question's text or its topic must contain.
    pub search: String,
    /// The exact topic.
    pub topic: Option<String>,
    /// The exact difficulty.
    pub difficulty: Option<i32>,
    /// A student: questions that this student has solved are left out.
    pub unsolved_by: Option<i32>,
}

/// The mathematical value of a [`QuestionFilter`].
pub struct QuestionFilterView {
    pub search: Seq<char>,
    pub topic: Option<Seq<char>>,
    pub difficulty: Option<i32>,
    pub unsolved_by: Option<i32>,
}

impl DeepView for QuestionFilter {
    type V = QuestionFilterView;

    open spec fn deep_view(&self) -> QuestionFilterView {
        QuestionFilterView {
            search: self.search@,
            topic: self.topic.deep_view(),
            difficulty: self.difficulty,
            unsolved_by: self.unsolved_by,
        }
    }
}

impl View for QuestionFilter {
    type V = QuestionFilterView;

    open spec fn view(&self) -> QuestionFilterView {
        self.deep_view()
    }
}

/// The characters that do not stand for themselves in a pattern: the two
/// wildcards and the escape.
pub open spec fn is_special(c: char) -> bool {
    c == '%' || c == '_' || c == '\\'
}

/// One character as it is written in a pattern to stand for itself.
pub open spec fn escaped_char(c: char) -> Seq<char> {
    if is_special(c) {
        ESCAPE@.push(c)
    } else {
        seq![c]
    }
}

/// A text as it is written in a pattern to stand for itself: with an
/// escape before each special character.
pub open spec fn escaped(s: Seq<char>) -> Seq<char>
    decreases s.len(),
{
    if s.len() == 0 {
        Seq::empty()
    } else {
        escaped(s.drop_last()) + escaped_char(s.last())
    }
}

/// The pattern that matches any text containing `search`, character for
/// character.
pub open spec fn like_pattern(search: Seq<char>) -> Seq<char> {
    ANY_TEXT@ + escaped(search) + ANY_TEXT@
}

/// The conjunct that a search contributes.
pub open spec fn search_sql(f: QuestionFilterView) -> Seq<char> {
    if f.search.len() > 0 {
        AND_SEARCH@
    } else {
        Seq::empty()
    }
}

/// The values that a search binds: its pattern, once for the text and
/// once for the topic.
pub open spec fn search_params(f: QuestionFilterView) -> Seq<ParamView> {
    if f.search.len() > 0 {
        seq![ParamView::Text(like_pattern(f.search)), ParamView::Text(like_pattern(f.search))]
    } else {
        Seq::empty()
    }
}

/// The conjunct that a topic contributes.
pub open spec fn topic_sql(f: QuestionFilterView) -> Seq<char> {
    if f.topic is Some {
        AND_TOPIC@
    } else {
        Seq::empty()
    }
}

/// The value that a topic binds.
pub open spec fn topic_params(f: QuestionFilterView) -> Seq<ParamView> {
    match f.topic {
        Some(t) => seq![ParamView::Text(t)],
        None => Seq::empty(),
    }
}

/// The conjunct that a difficulty contributes.
pub open spec fn difficulty_sql(f: QuestionFilterView) -> Seq<char> {
    if f.difficulty is Some {
        AND_DIFFICULTY@
    } else {
        Seq::empty()
    }
}

/// The value that a difficulty binds.
pub open spec fn difficulty_params(f: QuestionFilterView) -> Seq<ParamView> {
    match f.difficulty {
        Some(d) => seq![ParamView::Integer(d as i64)],
        None => Seq::empty(),
    }
}

/// The conjunct that a student contributes.
pub open spec fn unsolved_sql(f: QuestionFilterView) -> Seq<char> {
    if f.unsolved_by is Some {
        AND_UNSOLVED@
    } else {
        Seq::empty()
    }
}

/// The value that a student binds.
pub open spec fn unsolved_params(f: QuestionFilterView) -> Seq<ParamView> {
    match f.unsolved_by {
        Some(s) => seq![ParamView::Integer(s as i64)],
        None => Seq::empty(),
    }
}

/// The `WHERE` clause of a filter: one conjunct for each predicate that is
/// present, in the order search, topic, difficulty, exclusion.
pub open spec fn predicate_sql(f: QuestionFilterView) -> Seq<char> {
    WHERE_ANY@ + search_sql(f) + topic_sql(f) + difficulty_sql(f) + unsolved_sql(f)
}

/// The values bound to the placeholders of [`predicate_sql`], in order.
pub open spec fn predicate_params(f: QuestionFilterView) -> Seq<ParamView> {
    search_params(f) + topic_params(f) + difficulty_params(f) + unsolved_params(f)
}

/// How many rows precede a page: pages are numbered from 1.
pub open spec fn page_offset(page: int, limit: int) -> int {
    (page - 1) * limit
}

/// The statement that counts the questions a filter matches.
pub open spec fn count_statement(f: QuestionFilterView) -> StatementView {
    StatementView {
        sql: COUNT_QUESTIONS@ + predicate_sql(f),
        params: predicate_params(f),
    }
}

/// The statement that reads one page of the questions a filter matches,
/// newest first.
pub open spec fn page_statement(f: QuestionFilterView, page: i32, limit: i32) -> StatementView {
    StatementView {
        sql: SELECT_QUESTIONS@ + predicate_sql(f) + NEWEST_FIRST_PAGE@,
        params: predicate_params(f) + seq![
            ParamView::Integer(limit as i64),
            ParamView::Integer(page_offset(page as int, limit as int) as i64),
        ],
    }
}

/// The statement that draws at most `count` of the questions a filter
/// matches, in random order.
pub open spec fn random_statement(f: QuestionFilterView, count: i32) -> StatementView {
    StatementView {
        sql: SELECT_QUESTIONS@ + predicate_sql(f) + RANDOM_ORDER@,
        params: predicate_params(f).push(ParamView::Integer(count as i64)),
    }
}

/// `n` placeholders, separated by commas.
pub open spec fn placeholders(n: nat) -> Seq<char>
    decreases n,
{
    if n == 0 {
        Seq::empty()
    } else if n == 1 {
        PLACEHOLDER@
    } else {
        placeholders((n - 1) as nat) + NEXT_PLACEHOLDER@
    }
}

/// Each id as a bound integer, in order.
pub open spec fn id_params(ids: Seq<i32>) -> Seq<ParamView> {
    Seq::new(ids.len(), |i: int| ParamView::Integer(ids[i] as i64))
}

/// The statement that reads the questions with the given ids, newest first.
pub open spec fn by_ids_statement(ids: Seq<i32>) -> StatementView {
    StatementView {
        sql: SELECT_QUESTIONS@ + WHERE_ID_IN@ + placeholders(ids.len()) + NEWEST_FIRST_OF_IDS@,
        params: id_params(ids),
    }
}

/// The statement that deletes the questions with the given ids.
pub open spec fn delete_by_ids_statement(ids: Seq<i32>) -> StatementView {
    StatementView {
        sql: DELETE_WHERE_ID_IN@ + placeholders(ids.len()) + CLOSE_IDS@,
        params: id_params(ids),
    }
}

/// Appends [`escaped`] `s` to `out`.
fn push_escaped(out: &mut String, s: &str)
    ensures
        final(out)@ == old(out)@ + escaped(s@),
{
    let n: usize = s.unicode_len();
    let mut i: usize = 0;
    assert(out@ =~= old(out)@ + escaped(s@.take(0)));
    while i < n
        invariant
            i <= n,
            n == s@.len(),
            out@ == old(out)@ + escaped(s@.take(i as int)),
        decreases n - i,
    {
        let c = s.get_char(i);
        let ghost before = out@;
        if c == '%' || c == '_' || c == '\\' {
            out.append(ESCAPE);
        }
        out.append(s.substring_char(i, i + 1));
        proof {
            reveal_strlit("\\");
            assert(s@.take(i as int + 1).drop_last() =~= s@.take(i as int));
            assert(s@.take(i as int + 1).last() == c);
            assert(s@.subrange(i as int, i as int + 1) =~= seq![c]);
            assert(out@ =~= before + escaped_char(c));
            assert(out@ =~= old(out)@ + escaped(s@.take(i as int + 1)));
        }
        i += 1;
    }
    assert(s@.take(n as int) =~= s@);
}

/// The `WHERE` clause of a filter and the values bound in it. Every
/// statement over filtered questions is rendered from this one pair.
pub fn predicate(filter: &QuestionFilter) -> (r: (String, Vec<Param>))
    ensures
        r.0@ == predicate_sql(filter@),
        r.1.deep_view() == predicate_params(filter@),
{
    let mut sql = String::from_str(WHERE_ANY);
    let mut params: Vec<Param> = Vec::new();
    if !filter.search.as_str().is_empty() {
        sql.append(AND_SEARCH);
        let mut pattern = String::from_str(ANY_TEXT);
        push_escaped(&mut pattern, filter.search.as_str());
        pattern.append(ANY_TEXT);
        params.push(Param::Text(pattern.clone()));
        params.push(Param::Text(pattern));
    }
    assert(sql@ =~= WHERE_ANY@ + search_sql(filter@));
    assert(params.deep_view() =~= search_params(filter@));
    match &filter.topic {
        Some(t) => {
            sql.append(AND_TOPIC);
            params.push(Param::Text(t.clone()));
        },
        None => {},
    }
    assert(sql@ =~= WHERE_ANY@ + search_sql(filter@) + topic_sql(filter@));
    assert(params.deep_view() =~= search_params(filter@) + topic_params(filter@));
    match filter.difficulty {
        Some(d) => {
            sql.append(AND_DIFFICULTY);
            params.push(Param::integer(d));
        },
        None => {},
    }
    assert(sql@ =~= WHERE_ANY@ + search_sql(filter@) + topic_sql(filter@)
        + difficulty_sql(filter@));
    assert(params.deep_view() =~= search_params(filter@) + topic_params(filter@)
        + difficulty_params(filter@));
    match filter.unsolved_by {
        Some(s) => {
            sql.append(AND_UNSOLVED);
            params.push(Param::integer(s));
        },
        None => {},
    }
    assert(sql@ =~= predicate_sql(filter@));
    assert(params.deep_view() =~= predicate_params(filter@));
    (sql, params)
}

/// Builds [`count_statement`].
pub fn count_questions(filter: &QuestionFilter) -> (s: Statement)
    ensures
        s@ == count_statement(filter@),
{
    let (clause, params) = predicate(filter);
    let mut sql = String::from_str(COUNT_QUESTIONS);
    sql.append(clause.as_str());
    Statement { sql, params }
}

/// Builds [`page_statement`]. The offset is computed in 64 bits, where the
/// product of two 32-bit numbers always fits.
pub fn page_of_questions(filter: &QuestionFilter, page: i32, limit: i32) -> (s: Statement)
    ensures
        s@ == page_statement(filter@, page, limit),
{
    let (clause, mut params) = predicate(filter);
    let mut sql = String::from_str(SELECT_QUESTIONS);
    sql.append(clause.as_str());
    sql.append(NEWEST_FIRST_PAGE);
    let before: i64 = page as i64 - 1;
    assert(-0x1_0000_0000_0000_0000 < before * (limit as i64) < 0x1_0000_0000_0000_0000
        && i64::MIN <= before * (limit as i64) <= i64::MAX) by (nonlinear_arith)
        requires
            -0x8000_0001 <= before <= 0x7fff_fffe,
            -0x8000_0000 <= limit <= 0x7fff_ffff,
    ;
    let offset: i64 = before * (limit as i64);
    params.push(Param::Integer(limit as i64));
    params.push(Param::Integer(offset));
    assert(params.deep_view() =~= page_statement(filter@, page, limit).params);
    Statement { sql, params }
}

/// Builds [`random_statement`].
pub fn random_questions(filter: &QuestionFilter, count: i32) -> (s: Statement)
    ensures
        s@ == random_statement(filter@, count),
{
    let (clause, mut params) = predicate(filter);
    let mut sql = String::from_str(SELECT_QUESTIONS);
    sql.append(clause.as_str());
    sql.append(RANDOM_ORDER);
    params.push(Param::integer(count));
    assert(params.deep_view() =~= random_statement(filter@, count).params);
    Statement { sql, params }
}

/// Appends `n` placeholders, separated by commas, to `sql`.
fn push_placeholders(sql: &mut String, n: usize)
    ensures
        final(sql)@ == old(sql)@ + placeholders(n as nat),
{
    let mut i: usize = 0;
    assert(sql@ =~= old(sql)@ + placeholders(0));
    while i < n
        invariant
            i <= n,
            sql@ == old(sql)@ + placeholders(i as nat),
        decreases n - i,
    {
        if i == 0 {
            sql.append(PLACEHOLDER);
        } else {
            sql.append(NEXT_PLACEHOLDER);
        }
        i += 1;
        assert(sql@ =~= old(sql)@ + placeholders(i as nat));
    }
}

/// Each id as a bound integer, in order.
fn bind_ids(ids: &Vec<i32>) -> (params: Vec<Param>)
    ensures
        params.deep_view() == id_params(ids@),
{
    let mut params: Vec<Param> = Vec::new();
    let mut i: usize = 0;
    while i < ids.len()
        invariant
            i <= ids.len(),
            params.len() == i,
            forall|k: int|
                0 <= k < i ==> (#[trigger] params[k])@ == ParamView::Integer(ids[k] as i64),
        decreases ids.len() - i,
    {
        params.push(Param::integer(ids[i]));
        i += 1;
    }
    assert(params.deep_view() =~= id_params(ids@));
    params
}

/// Builds [`by_ids_statement`], with one placeholder for each id. For an
/// empty list there is nothing to ask the store: the result is `None`.
pub fn questions_by_ids(ids: &Vec<i32>) -> (r: Option<Statement>)
    ensures
        ids@.len() == 0 <==> r is None,
        r matches Some(s) ==> s@ == by_ids_statement(ids@),
{
    if ids.len() == 0 {
        return None;
    }
    let mut sql = String::from_str(SELECT_QUESTIONS);
    sql.append(WHERE_ID_IN);
    push_placeholders(&mut sql, ids.len());
    sql.append(NEWEST_FIRST_OF_IDS);
    Some(Statement { sql, params: bind_ids(ids) })
}

/// Builds [`delete_by_ids_statement`], with one placeholder for each id.
/// For an empty list there is nothing to delete: the result is `None`.
pub fn delete_questions_by_ids(ids: &Vec<i32>) -> (r: Option<Statement>)
    ensures
        ids@.len() == 0 <==> r is None,
        r matches Some(s) ==> s@ == delete_by_ids_statement(ids@),
{
    if ids.len() == 0 {
        return None;
    }
    let mut sql = String::from_str(DELETE_WHERE_ID_IN);
    push_placeholders(&mut sql, ids.len());
    sql.append(CLOSE_IDS);
    Some(Statement { sql, params: bind_ids(ids) })
}

/// The same predicates are present in two filters, whatever they hold.
pub open spec fn same_predicates(f: QuestionFilterView, g: QuestionFilterView) -> bool {
    &&& f.search.len() > 0 <==> g.search.len() > 0
    &&& f.topic is Some <==> g.topic is Some
    &&& f.difficulty is Some <==> g.difficulty is Some
    &&& f.unsolved_by is Some <==> g.unsolved_by is Some
}

/// The text of a statement does not depend on the values that the caller
/// gives: two filters with the same predicates present give the same
/// text, for every page, limit and count. The values are only bound.
pub proof fn law_values_are_bound_not_written(
    f: QuestionFilterView,
    g: QuestionFilterView,
    page: (i32, i32),
    limit: (i32, i32),
    count: (i32, i32),
)
    requires
        same_predicates(f, g),
    ensures
        predicate_sql(f) == predicate_sql(g),
        count_statement(f).sql == count_statement(g).sql,
        page_statement(f, page.0, limit.0).sql == page_statement(g, page.1, limit.1).sql,
        random_statement(f, count.0).sql == random_statement(g, count.1).sql,
{
}

/// The count and the page of one filter agree on what they select: both
/// carry the filter's clause, and the page binds the values of the count,
/// in the same order, before its own limit and offset.
pub proof fn law_count_and_page_share_predicates(f: QuestionFilterView, page: i32, limit: i32)
    ensures
        count_statement(f).sql == COUNT_QUESTIONS@ + predicate_sql(f),
        page_statement(f, page, limit).sql == SELECT_QUESTIONS@ + predicate_sql(f)
            + NEWEST_FIRST_PAGE@,
        page_statement(f, page, limit).params.len() == count_statement(f).params.len() + 2,
        page_statement(f, page, limit).params.take(count_statement(f).params.len() as int)
            == count_statement(f).params,
{
    assert(page_statement(f, page, limit).params.take(count_statement(f).params.len() as int)
        =~= count_statement(f).params);
}

/// A search without special characters is written into its pattern as it
/// is, between the wildcards.
pub proof fn law_plain_search_is_unchanged(search: Seq<char>)
    requires
        forall|i: int| 0 <= i < search.len() ==> !is_special(search[i]),
    ensures
        escaped(search) == search,
        like_pattern(search) == ANY_TEXT@ + search + ANY_TEXT@,
    decreases search.len(),
{
    if search.len() > 0 {
        law_plain_search_is_unchanged(search.drop_last());
        assert(escaped(search) =~= search);
    }
}

/// An absent predicate contributes nothing: the statement of the empty
/// filter has the bare clause and binds no value to it.
pub proof fn law_absent_predicates_contribute_nothing(f: QuestionFilterView)
    requires
        f.search.len() == 0,
        f.topic is None,
        f.difficulty is None,
        f.unsolved_by is None,
    ensures
        predicate_sql(f) == WHERE_ANY@,
        predicate_params(f) == Seq::<ParamView>::empty(),
{
    assert(predicate_sql(f) =~= WHERE_ANY@);
    assert(predicate_params(f) =~= Seq::<ParamView>::empty());
}

/// The placeholders in each conjunct.
proof fn lemma_placeholders_in_clauses()
    ensures
        occurrences(WHERE_ANY@, '?') == 0,
        occurrences(AND_SEARCH@, '?') == 2,
        occurrences(AND_TOPIC@, '?') == 1,
        occurrences(AND_DIFFICULTY@, '?') == 1,
        occurrences(AND_UNSOLVED@, '?') == 1,
{
    reveal_strlit(" WHERE 1=1");
    reveal_strlit(" AND (text LIKE ? ESCAPE '\\' OR topic LIKE ? ESCAPE '\\')");
    reveal_strlit(" AND topic = ?");
    reveal_strlit(" AND difficulty = ?");
    reveal_strlit(
        " AND id NOT IN (SELECT question_id FROM student_solved_questions WHERE student_id = ?)",
    );
    lemma_occurs_never(WHERE_ANY@, '?');
    lemma_occurs_twice(AND_SEARCH@, '?', 16, 43);
    lemma_occurs_once(AND_TOPIC@, '?', 13);
    lemma_occurs_once(AND_DIFFICULTY@, '?', 18);
    lemma_occurs_once(AND_UNSOLVED@, '?', 84);
}

/// The placeholders in what stands before and after the clause.
proof fn lemma_placeholders_in_frames()
    ensures
        occurrences(COUNT_QUESTIONS@, '?') == 0,
        occurrences(SELECT_QUESTIONS@, '?') == 0,
        occurrences(NEWEST_FIRST_PAGE@, '?') == 2,
        occurrences(RANDOM_ORDER@, '?') == 1,
{
    reveal_strlit("SELECT COUNT(*) FROM questions");
    reveal_strlit(
        "SELECT id, text, image_path, image_base64, subject, source_pdf, page_number, difficulty, topic FROM questions",
    );
    reveal_strlit(" ORDER BY created_at DESC, id DESC LIMIT ? OFFSET ?");
    reveal_strlit(" ORDER BY RANDOM() LIMIT ?");
    lemma_occurs_never(COUNT_QUESTIONS@, '?');
    lemma_occurs_never(SELECT_QUESTIONS@, '?');
    lemma_occurs_twice(NEWEST_FIRST_PAGE@, '?', 41, 50);
    lemma_occurs_once(RANDOM_ORDER@, '?', 25);
}

/// A clause has one placeholder for each value it binds.
proof fn lemma_placeholders_in_predicate(f: QuestionFilterView)
    ensures
        occurrences(predicate_sql(f), '?') == predicate_params(f).len(),
{
    lemma_placeholders_in_clauses();
    let a = WHERE_ANY@;
    let b = a + search_sql(f);
    let c = b + topic_sql(f);
    let d = c + difficulty_sql(f);
    lemma_occurrences_concat(a, search_sql(f), '?');
    lemma_occurrences_concat(b, topic_sql(f), '?');
    lemma_occurrences_concat(c, difficulty_sql(f), '?');
    lemma_occurrences_concat(d, unsolved_sql(f), '?');
}

/// Every statement over filtered questions has as many placeholders as it
/// binds values: one for each value of a predicate that is present, and
/// one each for limit, offset and count.
pub proof fn law_one_placeholder_for_each_value(
    f: QuestionFilterView,
    page: i32,
    limit: i32,
    count: i32,
)
    ensures
        binds_each_placeholder(count_statement(f)),
        binds_each_placeholder(page_statement(f, page, limit)),
        binds_each_placeholder(random_statement(f, count)),
{
    lemma_placeholders_in_predicate(f);
    lemma_placeholders_in_frames();
    lemma_occurrences_concat(COUNT_QUESTIONS@, predicate_sql(f), '?');
    lemma_occurrences_concat(SELECT_QUESTIONS@, predicate_sql(f), '?');
    lemma_occurrences_concat(SELECT_QUESTIONS@ + predicate_sql(f), NEWEST_FIRST_PAGE@, '?');
    lemma_occurrences_concat(SELECT_QUESTIONS@ + predicate_sql(f), RANDOM_ORDER@, '?');
}

/// A list of ids is written as one placeholder for each id, and each id
/// is bound to its own placeholder.
pub proof fn law_one_placeholder_for_each_id(ids: Seq<i32>)
    ensures
        occurrences(placeholders(ids.len()), '?') == ids.len(),
        binds_each_placeholder(by_ids_statement(ids)),
        binds_each_placeholder(delete_by_ids_statement(ids)),
        by_ids_statement(ids).params.len() == ids.len(),
        delete_by_ids_statement(ids).params.len() == ids.len(),
        forall|i: int|
            0 <= i < ids.len() ==> by_ids_statement(ids).params[i] == ParamView::Integer(
                ids[i] as i64,
            ),
{
    lemma_placeholders_count(ids.len());
    lemma_placeholders_in_frames();
    reveal_strlit(" WHERE id IN (");
    reveal_strlit(") ORDER BY created_at DESC, id DESC");
    reveal_strlit("DELETE FROM questions WHERE id IN (");
    reveal_strlit(")");
    lemma_occurs_never(WHERE_ID_IN@, '?');
    lemma_occurs_never(NEWEST_FIRST_OF_IDS@, '?');
    lemma_occurs_never(DELETE_WHERE_ID_IN@, '?');
    lemma_occurs_never(CLOSE_IDS@, '?');
    let slots = placeholders(ids.len());
    lemma_occurrences_concat(SELECT_QUESTIONS@, WHERE_ID_IN@, '?');
    lemma_occurrences_concat(SELECT_QUESTIONS@ + WHERE_ID_IN@, slots, '?');
    lemma_occurrences_concat(SELECT_QUESTIONS@ + WHERE_ID_IN@ + slots, NEWEST_FIRST_OF_IDS@, '?');
    lemma_occurrences_concat(DELETE_WHERE_ID_IN@, slots, '?');
    lemma_occurrences_concat(DELETE_WHERE_ID_IN@ + slots, CLOSE_IDS@, '?');
}

/// `n` placeholders are `n` placeholders.
proof fn lemma_placeholders_count(n: nat)
    ensures
        occurrences(placeholders(n), '?') == n,
    decreases n,
{
    reveal_strlit("?");
    reveal_strlit(",?");
    if n == 0 {
    } else if n == 1 {
        assert(PLACEHOLDER@.drop_last() =~= Seq::<char>::empty());
        assert(occurrences(PLACEHOLDER@.drop_last(), '?') == 0);
    } else {
        lemma_placeholders_count((n - 1) as nat);
        let before = placeholders((n - 1) as nat);
        let now = placeholders(n);
        assert(now =~= before.push(',').push('?'));
        assert(now.drop_last() =~= before.push(','));
        assert(before.push(',').drop_last() =~= before);
        assert(occurrences(before.push(','), '?') == occurrences(before, '?'));
        assert(occurrences(now, '?') == occurrences(before.push(','), '?') + 1);
    }
}

} // verus!
