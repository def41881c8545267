use question_bank::payload::{
    integer_to_text, json_array, json_text, solver_input_json, solver_inputs, solver_object,
    solver_payload,
    SolverInput,
};
use question_bank::question::Question;

fn question(id: Option<i32>, text: &str, image_path: &str) -> Question {
    Question {
        id,
        text: text.to_string(),
        image_path: image_path.to_string(),
        image_base64: Some("AAAA".to_string()),
        subject: None,
        source_pdf: None,
        page_number: None,
        difficulty: Some(3),
        topic: None,
    }
}

#[test]
fn integers_in_decimal() {
    assert_eq!(integer_to_text(0), "0");
    assert_eq!(integer_to_text(7), "7");
    assert_eq!(integer_to_text(10), "10");
    assert_eq!(integer_to_text(-1), "-1");
    assert_eq!(integer_to_text(1234567890), "1234567890");
    assert_eq!(integer_to_text(-900), "-900");
    assert_eq!(integer_to_text(i32::MAX), "2147483647");
    assert_eq!(integer_to_text(i32::MIN), "-2147483648");
}

#[test]
fn integers_as_serde_json_writes_them() {
    for n in [0, 1, -1, 9, 10, 99, 100, 101, -2147483648, 2147483647, 305419896] {
        assert_eq!(integer_to_text(n), serde_json::to_string(&n).unwrap());
    }
}

#[test]
fn projects_a_question() {
    assert_eq!(
        SolverInput::of_question(&question(Some(5), "t", "p.png")),
        SolverInput {
            id: 5,
            text: "t".to_string(),
            image_path: Some("p.png".to_string()),
        }
    );
}

#[test]
fn empty_image_path_is_left_out() {
    assert_eq!(
        SolverInput::of_question(&question(Some(5), "t", "")),
        SolverInput {
            id: 5,
            text: "t".to_string(),
            image_path: None,
        }
    );
}

#[test]
fn question_without_id_is_numbered_zero() {
    assert_eq!(SolverInput::of_question(&question(None, "t", "")).id, 0);
}

#[test]
fn projects_in_order() {
    let members = vec![question(Some(2), "b", "b.png"), question(Some(1), "a", "")];
    let inputs = solver_inputs(&members);
    assert_eq!(inputs.len(), 2);
    assert_eq!(inputs[0].id, 2);
    assert_eq!(inputs[1].id, 1);
    assert_eq!(inputs[1].image_path, None);
    assert!(solver_inputs(&vec![]).is_empty());
}

#[test]
fn object_from_parts() {
    assert_eq!(
        solver_object(12, "\"x\"", &Some("\"p\"".to_string())),
        "{\"id\":12,\"text\":\"x\",\"image_path\":\"p\"}"
    );
    assert_eq!(solver_object(-3, "\"x\"", &None), "{\"id\":-3,\"text\":\"x\"}");
}

#[test]
fn array_from_items() {
    assert_eq!(json_array(&vec![]), "[]");
    assert_eq!(json_array(&vec!["1".to_string()]), "[1]");
    assert_eq!(
        json_array(&vec!["1".to_string(), "{}".to_string(), "null".to_string()]),
        "[1,{},null]"
    );
}

#[test]
fn texts_are_escaped_as_json_strings() {
    let input = SolverInput {
        id: 1,
        text: "say \"hi\"\n\\ \u{1}é".to_string(),
        image_path: Some("C:\\img\\q.png".to_string()),
    };
    assert_eq!(
        solver_input_json(&input),
        "{\"id\":1,\"text\":\"say \\\"hi\\\"\\n\\\\ \\u0001é\",\"image_path\":\"C:\\\\img\\\\q.png\"}"
    );
}

#[test]
fn text_as_a_json_string() {
    assert_eq!(json_text(""), "\"\"");
    assert_eq!(json_text("plain"), "\"plain\"");
    assert_eq!(json_text("a\"b"), "\"a\\\"b\"");
    assert_eq!(json_text("tab\there"), "\"tab\\there\"");
    for s in ["", "x", "\u{0}\u{1f}", "\\", "ünïcödé \u{1F600}", "line\nbreak"] {
        let written = json_text(s);
        let read: String = serde_json::from_str(&written).unwrap();
        assert_eq!(read, s);
    }
}

#[test]
fn payload_is_an_array_of_objects() {
    let inputs = vec![
        SolverInput {
            id: 1,
            text: "first".to_string(),
            image_path: Some("a.png".to_string()),
        },
        SolverInput {
            id: 2,
            text: "second".to_string(),
            image_path: None,
        },
    ];
    assert_eq!(
        solver_payload(&inputs),
        "[{\"id\":1,\"text\":\"first\",\"image_path\":\"a.png\"},{\"id\":2,\"text\":\"second\"}]"
    );
    assert_eq!(solver_payload(&vec![]), "[]");
}

#[test]
fn payload_parses_back() {
    let inputs = vec![
        SolverInput {
            id: -7,
            text: "a \"quoted\" text\twith a tab".to_string(),
            image_path: Some("dir/ü.png".to_string()),
        },
        SolverInput {
            id: 8,
            text: String::new(),
            image_path: None,
        },
    ];
    let payload = solver_payload(&inputs);
    let parsed: serde_json::Value = serde_json::from_str(&payload).unwrap();
    let items = parsed.as_array().unwrap();
    assert_eq!(items.len(), 2);
    assert_eq!(items[0]["id"].as_i64(), Some(-7));
    assert_eq!(items[0]["text"].as_str(), Some("a \"quoted\" text\twith a tab"));
    assert_eq!(items[0]["image_path"].as_str(), Some("dir/ü.png"));
    assert_eq!(items[1]["id"].as_i64(), Some(8));
    assert_eq!(items[1]["text"].as_str(), Some(""));
    assert!(items[1].get("image_path").is_none());
}
