use question_bank::archive;
use question_bank::query::Statement;
use question_bank::question::{self, Question};
use question_bank::schema;
use question_bank::setting;
use question_bank::student;
use question_bank::template::{self, Template};
use question_bank::transaction;
use question_bank::value::Param;

fn text(s: &str) -> Param {
    Param::Text(s.to_string())
}

fn statement(sql: &str, params: Vec<Param>) -> Statement {
    Statement {
        sql: sql.to_string(),
        params,
    }
}

#[test]
fn question_statements() {
    let q = Question {
        id: Some(99),
        text: "t".to_string(),
        image_path: "p".to_string(),
        image_base64: None,
        subject: Some("s".to_string()),
        source_pdf: None,
        page_number: Some(3),
        difficulty: None,
        topic: Some("algebra".to_string()),
    };
    assert_eq!(
        question::insert_question(&q),
        statement(
            "INSERT INTO questions (text, image_path, image_base64, subject, source_pdf, page_number, difficulty, topic) VALUES (?1, ?2, ?3, ?4, ?5, ?6, ?7, ?8)",
            vec![
                text("t"),
                text("p"),
                Param::Null,
                text("s"),
                Param::Null,
                Param::Integer(3),
                Param::Null,
                text("algebra"),
            ],
        )
    );
    assert_eq!(
        question::delete_question(-4),
        statement("DELETE FROM questions WHERE id = ?1", vec![Param::Integer(-4)])
    );
    assert_eq!(
        question::select_all_questions(),
        statement(
            "SELECT id, text, image_path, image_base64, subject, source_pdf, page_number, difficulty, topic FROM questions ORDER BY created_at DESC, id DESC",
            vec![],
        )
    );
    assert_eq!(
        question::select_topics(),
        statement(
            "SELECT DISTINCT topic FROM questions WHERE topic IS NOT NULL AND topic != '' ORDER BY topic ASC",
            vec![],
        )
    );
}

#[test]
fn template_statements() {
    let t = Template {
        id: None,
        name: "A4".to_string(),
        path: "/t/a4.pdf".to_string(),
        preview_image: Some("iVBOR".to_string()),
        margins_json: "{}".to_string(),
    };
    assert_eq!(
        template::insert_template(&t),
        statement(
            "INSERT INTO user_templates (name, path, preview_image, margins_json) VALUES (?1, ?2, ?3, ?4)",
            vec![text("A4"), text("/t/a4.pdf"), text("iVBOR"), text("{}")],
        )
    );
    assert_eq!(
        template::update_template(5, "Letter", "{\"top\":1}"),
        statement(
            "UPDATE user_templates SET name = ?1, margins_json = ?2 WHERE id = ?3",
            vec![text("Letter"), text("{\"top\":1}"), Param::Integer(5)],
        )
    );
    assert_eq!(
        template::select_templates(),
        statement(
            "SELECT id, name, path, preview_image, margins_json FROM user_templates ORDER BY created_at DESC, id DESC",
            vec![],
        )
    );
    assert_eq!(
        template::delete_template(5),
        statement("DELETE FROM user_templates WHERE id = ?1", vec![Param::Integer(5)])
    );
}

#[test]
fn student_statements() {
    assert_eq!(
        student::add_student("Ada"),
        statement("INSERT INTO students (name) VALUES (?1)", vec![text("Ada")])
    );
    assert_eq!(
        student::select_students(),
        statement("SELECT id, name FROM students ORDER BY name ASC", vec![])
    );
    assert_eq!(
        student::delete_student(2),
        statement("DELETE FROM students WHERE id = ?1", vec![Param::Integer(2)])
    );
    assert_eq!(
        student::mark_solved(2, 7),
        statement(
            "INSERT OR IGNORE INTO student_solved_questions (student_id, question_id) VALUES (?1, ?2)",
            vec![Param::Integer(2), Param::Integer(7)],
        )
    );
}

#[test]
fn test_statements() {
    assert_eq!(archive::test_name("2024-05-01 10:30"), "Test - 2024-05-01 10:30");
    assert_eq!(archive::test_name(""), "Test - ");
    assert_eq!(
        archive::insert_test(None, "Test - x"),
        statement(
            "INSERT INTO tests (student_id, name) VALUES (?1, ?2)",
            vec![Param::Null, text("Test - x")],
        )
    );
    assert_eq!(
        archive::insert_test(Some(3), "n").params,
        vec![Param::Integer(3), text("n")]
    );
    assert_eq!(
        archive::add_member(1 << 40, 7),
        statement(
            "INSERT INTO test_questions (test_id, question_id) VALUES (?1, ?2)",
            vec![Param::Integer(1 << 40), Param::Integer(7)],
        )
    );
    assert_eq!(
        archive::select_tests(),
        statement(
            "SELECT t.id, t.created_at, s.name, COUNT(tq.question_id) FROM tests t LEFT JOIN students s ON t.student_id = s.id LEFT JOIN test_questions tq ON t.id = tq.test_id GROUP BY t.id ORDER BY t.created_at DESC, t.id DESC",
            vec![],
        )
    );
    assert_eq!(
        archive::select_test_questions(4),
        statement(
            "SELECT q.id, q.text, q.image_path, q.image_base64, q.subject, q.source_pdf, q.page_number, q.difficulty, q.topic FROM questions q INNER JOIN test_questions tq ON q.id = tq.question_id WHERE tq.test_id = ?1",
            vec![Param::Integer(4)],
        )
    );
    assert_eq!(
        archive::select_answer_key(4),
        statement("SELECT answer_key FROM tests WHERE id = ?1", vec![Param::Integer(4)])
    );
    assert_eq!(
        archive::save_answer_key(4, "key"),
        statement(
            "UPDATE tests SET answer_key = ?1 WHERE id = ?2",
            vec![text("key"), Param::Integer(4)],
        )
    );
}

#[test]
fn transaction_statements() {
    assert_eq!(transaction::begin(), statement("BEGIN", vec![]));
    assert_eq!(transaction::commit(), statement("COMMIT", vec![]));
    assert_eq!(transaction::rollback(), statement("ROLLBACK", vec![]));
}

#[test]
fn setting_statements() {
    assert_eq!(
        setting::get_setting("k"),
        statement("SELECT value FROM settings WHERE key = ?1", vec![text("k")])
    );
    assert_eq!(
        setting::set_setting("k", "v"),
        statement(
            "INSERT INTO settings (key, value) VALUES (?1, ?2) ON CONFLICT(key) DO UPDATE SET value = excluded.value",
            vec![text("k"), text("v")],
        )
    );
}

#[test]
fn schema_statements() {
    let tables = schema::tables();
    assert_eq!(tables.len(), 7);
    assert!(tables.iter().all(|s| s.params.is_empty()));
    assert_eq!(
        tables[0].sql,
        "CREATE TABLE IF NOT EXISTS questions (id INTEGER PRIMARY KEY, text TEXT NOT NULL, image_path TEXT, image_base64 TEXT, subject TEXT, source_pdf TEXT, page_number INTEGER, difficulty INTEGER, topic TEXT, created_at DATETIME DEFAULT CURRENT_TIMESTAMP)"
    );
    assert_eq!(
        tables[3].sql,
        "CREATE TABLE IF NOT EXISTS student_solved_questions (student_id INTEGER, question_id INTEGER, solved_at DATETIME DEFAULT CURRENT_TIMESTAMP, PRIMARY KEY (student_id, question_id), FOREIGN KEY(student_id) REFERENCES students(id) ON DELETE CASCADE, FOREIGN KEY(question_id) REFERENCES questions(id) ON DELETE CASCADE)"
    );
    assert_eq!(
        tables[4].sql,
        "CREATE TABLE IF NOT EXISTS tests (id INTEGER PRIMARY KEY AUTOINCREMENT, student_id INTEGER, name TEXT, created_at DATETIME DEFAULT CURRENT_TIMESTAMP, FOREIGN KEY(student_id) REFERENCES students(id) ON DELETE SET NULL)"
    );
    assert_eq!(
        tables[6].sql,
        "CREATE TABLE IF NOT EXISTS settings (key TEXT PRIMARY KEY, value TEXT NOT NULL)"
    );
    let names: Vec<&str> = tables
        .iter()
        .map(|s| {
            s.sql
                .strip_prefix("CREATE TABLE IF NOT EXISTS ")
                .unwrap()
                .split(' ')
                .next()
                .unwrap()
        })
        .collect();
    assert_eq!(
        names,
        vec![
            "questions",
            "user_templates",
            "students",
            "student_solved_questions",
            "tests",
            "test_questions",
            "settings",
        ]
    );

    let setup = schema::setup();
    assert_eq!(setup.len(), 8);
    assert_eq!(setup[0].sql, "PRAGMA foreign_keys = ON");
    assert!(setup[0].params.is_empty());
    assert_eq!(setup[1..], tables[..]);

    let migrations: Vec<String> = schema::migrations().into_iter().map(|s| s.sql).collect();
    assert_eq!(
        migrations,
        vec![
            "ALTER TABLE questions ADD COLUMN difficulty INTEGER".to_string(),
            "ALTER TABLE questions ADD COLUMN topic TEXT".to_string(),
            "ALTER TABLE tests ADD COLUMN answer_key TEXT".to_string(),
        ]
    );
}
