use question_bank::error::StorageError;
use question_bank::question::{Question, DEFAULT_DIFFICULTY};
use question_bank::row::{
    read_count, read_int, read_looked_up_text, read_optional_int, read_optional_text, read_rows,
    read_text, FromRow,
};
use question_bank::template::Template;
use question_bank::value::Cell;

fn text(s: &str) -> Cell {
    Cell::Text(s.to_string())
}

fn question_row(difficulty: Cell, topic: Cell) -> Vec<Cell> {
    vec![
        Cell::Integer(4),
        text("What is 2 + 2?"),
        text("q4.png"),
        Cell::Null,
        text("math"),
        text("book.pdf"),
        Cell::Integer(12),
        difficulty,
        topic,
    ]
}

#[test]
fn reads_integers_by_range() {
    let row = vec![
        Cell::Integer(2147483647),
        Cell::Integer(2147483648),
        Cell::Integer(-2147483648),
        Cell::Integer(-2147483649),
        Cell::Null,
        text("7"),
        Cell::Real,
        Cell::Blob,
    ];
    assert_eq!(read_int(&row, 0), Some(2147483647));
    assert_eq!(read_int(&row, 1), None);
    assert_eq!(read_int(&row, 2), Some(-2147483648));
    assert_eq!(read_int(&row, 3), None);
    assert_eq!(read_int(&row, 4), None);
    assert_eq!(read_int(&row, 5), None);
    assert_eq!(read_int(&row, 6), None);
    assert_eq!(read_int(&row, 7), None);
    assert_eq!(read_int(&row, 8), None);
}

#[test]
fn reads_optional_integers() {
    let row = vec![Cell::Null, Cell::Integer(3), text("3"), Cell::Integer(1 << 40)];
    assert_eq!(read_optional_int(&row, 0), Some(None));
    assert_eq!(read_optional_int(&row, 1), Some(Some(3)));
    assert_eq!(read_optional_int(&row, 2), None);
    assert_eq!(read_optional_int(&row, 3), None);
    assert_eq!(read_optional_int(&row, 4), None);
}

#[test]
fn reads_texts() {
    let row = vec![text("a"), Cell::Null, Cell::Integer(1), Cell::Blob];
    assert_eq!(read_text(&row, 0), Some("a".to_string()));
    assert_eq!(read_text(&row, 1), None);
    assert_eq!(read_text(&row, 2), None);
    assert_eq!(read_text(&row, 4), None);
    assert_eq!(read_optional_text(&row, 0), Some(Some("a".to_string())));
    assert_eq!(read_optional_text(&row, 1), Some(None));
    assert_eq!(read_optional_text(&row, 2), None);
    assert_eq!(read_optional_text(&row, 3), None);
    assert_eq!(read_optional_text(&row, 4), None);
}

#[test]
fn reads_a_question() {
    let q = Question::from_row(&question_row(Cell::Integer(5), text("algebra"))).unwrap();
    assert_eq!(
        q,
        Question {
            id: Some(4),
            text: "What is 2 + 2?".to_string(),
            image_path: "q4.png".to_string(),
            image_base64: None,
            subject: Some("math".to_string()),
            source_pdf: Some("book.pdf".to_string()),
            page_number: Some(12),
            difficulty: Some(5),
            topic: Some("algebra".to_string()),
        }
    );
}

#[test]
fn default_difficulty_is_three() {
    assert_eq!(DEFAULT_DIFFICULTY, 3);
}

#[test]
fn absent_or_unreadable_difficulty_reads_as_default() {
    for cell in [Cell::Null, text("hard"), Cell::Real, Cell::Blob, Cell::Integer(1 << 33)] {
        let q = Question::from_row(&question_row(cell, text("algebra"))).unwrap();
        assert_eq!(q.difficulty, Some(3));
    }
    let mut short = question_row(Cell::Null, Cell::Null);
    short.truncate(7);
    let q = Question::from_row(&short).unwrap();
    assert_eq!(q.difficulty, Some(3));
    assert_eq!(q.topic, None);
}

#[test]
fn absent_or_unreadable_topic_reads_as_absent() {
    for cell in [Cell::Null, Cell::Integer(1), Cell::Real, Cell::Blob] {
        let q = Question::from_row(&question_row(Cell::Integer(1), cell)).unwrap();
        assert_eq!(q.topic, None);
        assert_eq!(q.difficulty, Some(1));
    }
}

#[test]
fn question_needs_its_text_and_image_path() {
    let mut row = question_row(Cell::Integer(1), Cell::Null);
    row[1] = Cell::Null;
    assert_eq!(Question::from_row(&row), None);
    let mut row = question_row(Cell::Integer(1), Cell::Null);
    row[2] = Cell::Null;
    assert_eq!(Question::from_row(&row), None);
    let mut row = question_row(Cell::Integer(1), Cell::Null);
    row[0] = text("one");
    assert_eq!(Question::from_row(&row), None);
    let mut row = question_row(Cell::Integer(1), Cell::Null);
    row[6] = Cell::Real;
    assert_eq!(Question::from_row(&row), None);
    let mut row = question_row(Cell::Integer(1), Cell::Null);
    row.truncate(6);
    assert_eq!(Question::from_row(&row), None);
    let mut row = question_row(Cell::Integer(1), Cell::Null);
    row[0] = Cell::Null;
    assert_eq!(Question::from_row(&row).unwrap().id, None);
}

#[test]
fn reads_a_template() {
    let row = vec![
        Cell::Integer(2),
        text("A4"),
        text("/t/a4.pdf"),
        text("iVBOR"),
        text("{\"top\":10}"),
    ];
    assert_eq!(
        Template::from_row(&row),
        Some(Template {
            id: Some(2),
            name: "A4".to_string(),
            path: "/t/a4.pdf".to_string(),
            preview_image: Some("iVBOR".to_string()),
            margins_json: "{\"top\":10}".to_string(),
        })
    );
    let mut bad = row.clone();
    bad[4] = Cell::Null;
    assert_eq!(Template::from_row(&bad), None);
    let mut none = row.clone();
    none[3] = Cell::Null;
    assert_eq!(Template::from_row(&none).unwrap().preview_image, None);
}

#[test]
fn reads_student_and_test_rows() {
    let student = vec![Cell::Integer(1), text("Ada")];
    assert_eq!(
        <(i32, String)>::from_row(&student),
        Some((1, "Ada".to_string()))
    );
    assert_eq!(<(i32, String)>::from_row(&vec![Cell::Null, text("Ada")]), None);

    let listed = vec![
        Cell::Integer(3),
        text("2024-05-01 10:00:00"),
        Cell::Null,
        Cell::Integer(2),
    ];
    assert_eq!(
        <(i32, String, Option<String>, i32)>::from_row(&listed),
        Some((3, "2024-05-01 10:00:00".to_string(), None, 2))
    );
    let mut bad = listed.clone();
    bad[3] = Cell::Null;
    assert_eq!(<(i32, String, Option<String>, i32)>::from_row(&bad), None);

    assert_eq!(String::from_row(&vec![text("algebra")]), Some("algebra".to_string()));
    assert_eq!(String::from_row(&vec![Cell::Null]), None);
}

#[test]
fn read_rows_names_the_first_unreadable_row() {
    let good = vec![Cell::Integer(1), text("Ada")];
    let bad = vec![text("x"), text("Bob")];
    let rows = vec![good.clone(), good.clone(), bad.clone(), good.clone(), bad];
    assert_eq!(
        read_rows::<(i32, String)>(&rows),
        Err(StorageError::MalformedRow { row: 2 })
    );
    assert_eq!(
        read_rows::<(i32, String)>(&vec![good.clone(), good]),
        Ok(vec![(1, "Ada".to_string()), (1, "Ada".to_string())])
    );
    assert_eq!(read_rows::<(i32, String)>(&vec![]), Ok(vec![]));
}

#[test]
fn reads_a_count() {
    assert_eq!(read_count(&vec![vec![Cell::Integer(17)]]), Ok(17));
    assert_eq!(
        read_count(&vec![]),
        Err(StorageError::MalformedRow { row: 0 })
    );
    assert_eq!(
        read_count(&vec![vec![Cell::Null]]),
        Err(StorageError::MalformedRow { row: 0 })
    );
    assert_eq!(
        read_count(&vec![vec![Cell::Integer(1 << 31)]]),
        Err(StorageError::MalformedRow { row: 0 })
    );
}

#[test]
fn reads_a_looked_up_text() {
    assert_eq!(read_looked_up_text(&vec![]), Ok(None));
    assert_eq!(read_looked_up_text(&vec![vec![Cell::Null]]), Ok(None));
    assert_eq!(
        read_looked_up_text(&vec![vec![text("k")], vec![text("other")]]),
        Ok(Some("k".to_string()))
    );
    assert_eq!(
        read_looked_up_text(&vec![vec![Cell::Integer(1)]]),
        Err(StorageError::MalformedRow { row: 0 })
    );
}

#[test]
fn captured_question_gets_default_difficulty() {
    let q = Question::captured(
        "t".to_string(),
        "i.png".to_string(),
        "AAAA".to_string(),
        "doc.pdf".to_string(),
        4,
        None,
        None,
    );
    assert_eq!(
        q,
        Question {
            id: None,
            text: "t".to_string(),
            image_path: "i.png".to_string(),
            image_base64: Some("AAAA".to_string()),
            subject: None,
            source_pdf: Some("doc.pdf".to_string()),
            page_number: Some(4),
            difficulty: Some(3),
            topic: None,
        }
    );
    let q = Question::captured(
        "t".to_string(),
        String::new(),
        String::new(),
        String::new(),
        0,
        Some(5),
        Some("algebra".to_string()),
    );
    assert_eq!(q.difficulty, Some(5));
    assert_eq!(q.topic, Some("algebra".to_string()));
}

#[test]
fn storage_error_messages() {
    assert_eq!(
        StorageError::Constraint("UNIQUE constraint failed".to_string()).message(),
        "UNIQUE constraint failed"
    );
    assert_eq!(
        StorageError::Failed("no such table".to_string()).message(),
        "no such table"
    );
    assert_eq!(
        StorageError::MalformedRow { row: 3 }.message(),
        "malformed row in result"
    );
    assert_eq!(
        StorageError::reported(true, "m".to_string()),
        StorageError::Constraint("m".to_string())
    );
    assert_eq!(
        StorageError::reported(false, "m".to_string()),
        StorageError::Failed("m".to_string())
    );
}
