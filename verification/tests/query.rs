use question_bank::query::{
    count_questions, delete_questions_by_ids, page_of_questions, predicate, questions_by_ids,
    random_questions, QuestionFilter, Statement,
};
use question_bank::value::Param;

const COLUMNS: &str = "SELECT id, text, image_path, image_base64, subject, source_pdf, page_number, difficulty, topic FROM questions";

fn filter(
    search: &str,
    topic: Option<&str>,
    difficulty: Option<i32>,
    unsolved_by: Option<i32>,
) -> QuestionFilter {
    QuestionFilter {
        search: search.to_string(),
        topic: topic.map(|t| t.to_string()),
        difficulty,
        unsolved_by,
    }
}

fn text(s: &str) -> Param {
    Param::Text(s.to_string())
}

#[test]
fn empty_filter_has_bare_clause() {
    let (sql, params) = predicate(&filter("", None, None, None));
    assert_eq!(sql, " WHERE 1=1");
    assert!(params.is_empty());
}

#[test]
fn each_predicate_adds_its_conjunct() {
    let (sql, params) = predicate(&filter("x", None, None, None));
    assert_eq!(
        sql,
        " WHERE 1=1 AND (text LIKE ? ESCAPE '\\' OR topic LIKE ? ESCAPE '\\')"
    );
    assert_eq!(params, vec![text("%x%"), text("%x%")]);

    let (sql, params) = predicate(&filter("", Some("algebra"), None, None));
    assert_eq!(sql, " WHERE 1=1 AND topic = ?");
    assert_eq!(params, vec![text("algebra")]);

    let (sql, params) = predicate(&filter("", None, Some(4), None));
    assert_eq!(sql, " WHERE 1=1 AND difficulty = ?");
    assert_eq!(params, vec![Param::Integer(4)]);

    let (sql, params) = predicate(&filter("", None, None, Some(9)));
    assert_eq!(
        sql,
        " WHERE 1=1 AND id NOT IN (SELECT question_id FROM student_solved_questions WHERE student_id = ?)"
    );
    assert_eq!(params, vec![Param::Integer(9)]);
}

#[test]
fn predicates_combine_in_order() {
    let (sql, params) = predicate(&filter("tri", Some("geometry"), Some(2), Some(5)));
    assert_eq!(
        sql,
        " WHERE 1=1 AND (text LIKE ? ESCAPE '\\' OR topic LIKE ? ESCAPE '\\') AND topic = ? AND difficulty = ? AND id NOT IN (SELECT question_id FROM student_solved_questions WHERE student_id = ?)"
    );
    assert_eq!(
        params,
        vec![
            text("%tri%"),
            text("%tri%"),
            text("geometry"),
            Param::Integer(2),
            Param::Integer(5),
        ]
    );
}

#[test]
fn values_never_reach_the_text() {
    let hostile = "'; DROP TABLE questions; --";
    let a = page_of_questions(&filter(hostile, Some(hostile), Some(1), None), 1, 10);
    let b = page_of_questions(&filter("plain", Some("algebra"), Some(5), None), 7, 3);
    assert_eq!(a.sql, b.sql);
    assert!(!a.sql.contains("DROP"));
    assert_eq!(a.params[0], text("%'; DROP TABLE questions; --%"));
    assert_eq!(a.params[2], text(hostile));
}

#[test]
fn special_characters_of_a_search_are_escaped() {
    let (_, params) = predicate(&filter("100%", None, None, None));
    assert_eq!(params, vec![text("%100\\%%"), text("%100\\%%")]);
    let (_, params) = predicate(&filter("a_b", None, None, None));
    assert_eq!(params[0], text("%a\\_b%"));
    let (_, params) = predicate(&filter("C:\\dir", None, None, None));
    assert_eq!(params[0], text("%C:\\\\dir%"));
    let (_, params) = predicate(&filter("%_\\", None, None, None));
    assert_eq!(params[0], text("%\\%\\_\\\\%"));
    let (_, params) = predicate(&filter("çözüm 2+2", None, None, None));
    assert_eq!(params[0], text("%çözüm 2+2%"));
}

#[test]
fn count_statement_text() {
    let s = count_questions(&filter("", Some("algebra"), Some(1), None));
    assert_eq!(
        s,
        Statement {
            sql: "SELECT COUNT(*) FROM questions WHERE 1=1 AND topic = ? AND difficulty = ?"
                .to_string(),
            params: vec![text("algebra"), Param::Integer(1)],
        }
    );
}

#[test]
fn page_statement_text_and_offset() {
    let s = page_of_questions(&filter("", Some("algebra"), None, None), 3, 20);
    assert_eq!(
        s.sql,
        format!(
            "{} WHERE 1=1 AND topic = ? ORDER BY created_at DESC, id DESC LIMIT ? OFFSET ?",
            COLUMNS
        )
    );
    assert_eq!(
        s.params,
        vec![text("algebra"), Param::Integer(20), Param::Integer(40)]
    );
}

#[test]
fn first_page_starts_at_zero() {
    let s = page_of_questions(&filter("", None, None, None), 1, 25);
    assert_eq!(s.params, vec![Param::Integer(25), Param::Integer(0)]);
}

#[test]
fn offset_does_not_overflow() {
    let s = page_of_questions(&filter("", None, None, None), i32::MAX, i32::MAX);
    assert_eq!(
        s.params,
        vec![
            Param::Integer(2147483647),
            Param::Integer(2147483646i64 * 2147483647i64),
        ]
    );
    let s = page_of_questions(&filter("", None, None, None), i32::MIN, i32::MIN);
    assert_eq!(
        s.params,
        vec![
            Param::Integer(-2147483648),
            Param::Integer(-2147483649i64 * -2147483648i64),
        ]
    );
}

#[test]
fn count_and_page_share_clause_and_values() {
    let f = filter("sum", Some("algebra"), Some(2), None);
    let count = count_questions(&f);
    let page = page_of_questions(&f, 2, 5);
    let clause = count
        .sql
        .strip_prefix("SELECT COUNT(*) FROM questions")
        .unwrap()
        .to_string();
    assert_eq!(
        page.sql,
        format!(
            "{}{} ORDER BY created_at DESC, id DESC LIMIT ? OFFSET ?",
            COLUMNS, clause
        )
    );
    assert_eq!(page.params[..count.params.len()], count.params[..]);
    assert_eq!(page.params.len(), count.params.len() + 2);
}

#[test]
fn random_statement_text() {
    let s = random_questions(&filter("", Some("algebra"), Some(3), Some(8)), 12);
    assert_eq!(
        s.sql,
        format!(
            "{} WHERE 1=1 AND topic = ? AND difficulty = ? AND id NOT IN (SELECT question_id FROM student_solved_questions WHERE student_id = ?) ORDER BY RANDOM() LIMIT ?",
            COLUMNS
        )
    );
    assert_eq!(
        s.params,
        vec![
            text("algebra"),
            Param::Integer(3),
            Param::Integer(8),
            Param::Integer(12),
        ]
    );
}

#[test]
fn by_ids_has_one_placeholder_per_id() {
    let s = questions_by_ids(&vec![7, 3, 9]).unwrap();
    assert_eq!(
        s.sql,
        format!("{} WHERE id IN (?,?,?) ORDER BY created_at DESC, id DESC", COLUMNS)
    );
    assert_eq!(
        s.params,
        vec![Param::Integer(7), Param::Integer(3), Param::Integer(9)]
    );
    let s = questions_by_ids(&vec![-1]).unwrap();
    assert_eq!(
        s.sql,
        format!("{} WHERE id IN (?) ORDER BY created_at DESC, id DESC", COLUMNS)
    );
    assert_eq!(s.params, vec![Param::Integer(-1)]);
}

#[test]
fn by_ids_of_nothing_is_no_statement() {
    assert_eq!(questions_by_ids(&vec![]), None);
    assert_eq!(delete_questions_by_ids(&vec![]), None);
}

#[test]
fn delete_by_ids_text() {
    let s = delete_questions_by_ids(&vec![1, 2]).unwrap();
    assert_eq!(s.sql, "DELETE FROM questions WHERE id IN (?,?)");
    assert_eq!(s.params, vec![Param::Integer(1), Param::Integer(2)]);
}

#[test]
fn statement_new_keeps_text_and_values() {
    let s = Statement::new("SELECT ?", vec![Param::Null]);
    assert_eq!(s.sql, "SELECT ?");
    assert_eq!(s.params, vec![Param::Null]);
}

#[test]
fn params_from_optional_values() {
    assert_eq!(Param::integer(-5), Param::Integer(-5));
    assert_eq!(Param::optional_integer(None), Param::Null);
    assert_eq!(Param::optional_integer(Some(2)), Param::Integer(2));
    assert_eq!(Param::text("a"), text("a"));
    assert_eq!(Param::optional_text(&None), Param::Null);
    assert_eq!(Param::optional_text(&Some("b".to_string())), text("b"));
}
