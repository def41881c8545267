use question_bank::error::{Failure, StorageError};
use question_bank::worker::{
    analyze_document, analyze_template, credential, export, solve, CREDENTIAL_SETTING,
    CREDENTIAL_VARIABLE,
};

fn strings(items: &[&str]) -> Vec<String> {
    items.iter().map(|s| s.to_string()).collect()
}

#[test]
fn analysis_gets_the_path_alone() {
    assert_eq!(analyze_document("/docs/exam.pdf"), strings(&["/docs/exam.pdf"]));
}

#[test]
fn template_analysis_gets_verb_and_path() {
    assert_eq!(
        analyze_template("/t/a4.pdf"),
        strings(&["analyze-template", "/t/a4.pdf"])
    );
}

#[test]
fn solve_gets_verb_flag_and_json() {
    assert_eq!(solve("[]"), strings(&["solve", "--questions", "[]"]));
}

#[test]
fn export_with_everything() {
    assert_eq!(
        export(
            "/out/test.pdf",
            &strings(&["a.png", "b.png"]),
            &Some("/t/a4.pdf".to_string()),
            &Some("{\"top\":1}".to_string()),
        ),
        strings(&[
            "export",
            "/out/test.pdf",
            "--images",
            "a.png",
            "b.png",
            "--template",
            "/t/a4.pdf",
            "--margins",
            "{\"top\":1}",
        ])
    );
}

#[test]
fn export_without_options() {
    assert_eq!(
        export("/out/test.pdf", &strings(&["a.png"]), &None, &None),
        strings(&["export", "/out/test.pdf", "--images", "a.png"])
    );
    assert_eq!(
        export("o", &vec![], &None, &Some("m".to_string())),
        strings(&["export", "o", "--images", "--margins", "m"])
    );
    assert_eq!(
        export("o", &vec![], &Some("t".to_string()), &None),
        strings(&["export", "o", "--images", "--template", "t"])
    );
}

#[test]
fn credential_defaults_to_empty() {
    assert_eq!(credential(None), "");
    assert_eq!(credential(Some("k-123".to_string())), "k-123");
}

#[test]
fn credential_names() {
    assert_eq!(CREDENTIAL_SETTING, "gemini_api_key");
    assert_eq!(CREDENTIAL_VARIABLE, "GEMINI_API_KEY");
}

#[test]
fn failure_messages() {
    assert_eq!(Failure::EmptyTest.message(), "Testte soru yok");
    assert_eq!(
        Failure::SolveFailed("quota".to_string()).message(),
        "AI Çözüm hatası: quota"
    );
    assert_eq!(
        Failure::Transport("no such file".to_string()).message(),
        "Python (Sidecar) hatası: no such file"
    );
    assert_eq!(
        Failure::Storage(StorageError::Failed("disk I/O error".to_string())).message(),
        "disk I/O error"
    );
}
