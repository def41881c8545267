use question_bank::answer_key::{judge, Action, Event, Flow, SolverOutcome, Stage};
use question_bank::error::{Failure, StorageError};
use question_bank::question::Question;

fn question(id: i32, text: &str, image_path: &str) -> Question {
    Question {
        id: Some(id),
        text: text.to_string(),
        image_path: image_path.to_string(),
        image_base64: None,
        subject: None,
        source_pdf: None,
        page_number: None,
        difficulty: Some(3),
        topic: None,
    }
}

fn exited(success: bool, output: &str, diagnostics: &str) -> SolverOutcome {
    SolverOutcome::Exited {
        success,
        output: output.to_string(),
        diagnostics: diagnostics.to_string(),
    }
}

fn broken() -> StorageError {
    StorageError::Failed("database is locked".to_string())
}

fn finished(test_id: i32) -> Flow {
    Flow {
        test_id,
        stage: Stage::Finished,
    }
}

fn at(stage: Stage) -> Flow {
    Flow { test_id: 7, stage }
}

#[test]
fn starts_by_reading_the_cache() {
    let (flow, action) = Flow::start(7);
    assert_eq!(flow, at(Stage::CheckingCache));
    assert_eq!(action, Action::ReadCache);
}

#[test]
fn cached_key_is_returned_at_once() {
    let (flow, _) = Flow::start(7);
    let (flow, action) = flow.step(Event::CacheRead(Ok(Some("{\"1\":\"B\"}".to_string()))));
    assert_eq!(flow, finished(7));
    assert_eq!(action, Action::Finish(Ok("{\"1\":\"B\"}".to_string())));
}

#[test]
fn cache_miss_reads_the_members() {
    let (flow, action) = at(Stage::CheckingCache).step(Event::CacheRead(Ok(None)));
    assert_eq!(flow, at(Stage::Preparing));
    assert_eq!(action, Action::ReadMembers);
}

#[test]
fn failed_cache_read_ends_the_run() {
    let (flow, action) = at(Stage::CheckingCache).step(Event::CacheRead(Err(broken())));
    assert_eq!(flow, finished(7));
    assert_eq!(action, Action::Finish(Err(Failure::Storage(broken()))));
}

#[test]
fn empty_test_is_refused() {
    let (flow, action) = at(Stage::Preparing).step(Event::MembersRead(Ok(vec![])));
    assert_eq!(flow, finished(7));
    assert_eq!(action, Action::Finish(Err(Failure::EmptyTest)));
}

#[test]
fn failed_member_read_ends_the_run() {
    let (flow, action) = at(Stage::Preparing).step(Event::MembersRead(Err(broken())));
    assert_eq!(flow, finished(7));
    assert_eq!(action, Action::Finish(Err(Failure::Storage(broken()))));
}

#[test]
fn members_become_the_payload() {
    let members = vec![question(3, "2+2?", "q3.png"), question(4, "3+3?", "")];
    let (flow, action) = at(Stage::Preparing).step(Event::MembersRead(Ok(members)));
    assert_eq!(
        flow,
        at(Stage::Marshalling {
            payload: "[{\"id\":3,\"text\":\"2+2?\",\"image_path\":\"q3.png\"},{\"id\":4,\"text\":\"3+3?\"}]"
                .to_string()
        })
    );
    assert_eq!(action, Action::ReadCredential);
}

#[test]
fn credential_goes_with_the_call() {
    let stage = Stage::Marshalling {
        payload: "[1]".to_string(),
    };
    let (flow, action) = at(stage).step(Event::CredentialRead(Ok(Some("k-1".to_string()))));
    assert_eq!(flow, at(Stage::Solving));
    assert_eq!(
        action,
        Action::RunSolver {
            arguments: vec![
                "solve".to_string(),
                "--questions".to_string(),
                "[1]".to_string()
            ],
            credential: "k-1".to_string(),
        }
    );
}

#[test]
fn missing_credential_is_empty() {
    let stage = Stage::Marshalling {
        payload: "[1]".to_string(),
    };
    let (_, action) = at(stage).step(Event::CredentialRead(Ok(None)));
    assert_eq!(
        action,
        Action::RunSolver {
            arguments: vec![
                "solve".to_string(),
                "--questions".to_string(),
                "[1]".to_string()
            ],
            credential: String::new(),
        }
    );
}

#[test]
fn failed_credential_read_ends_the_run() {
    let stage = Stage::Marshalling {
        payload: "[1]".to_string(),
    };
    let (flow, action) = at(stage).step(Event::CredentialRead(Err(broken())));
    assert_eq!(flow, finished(7));
    assert_eq!(action, Action::Finish(Err(Failure::Storage(broken()))));
}

#[test]
fn solver_output_is_stored_verbatim() {
    let (flow, action) =
        at(Stage::Solving).step(Event::SolverReturned(exited(true, " {\"1\": \"A\"}\n", "warn")));
    assert_eq!(
        flow,
        at(Stage::Persisting {
            key: " {\"1\": \"A\"}\n".to_string()
        })
    );
    assert_eq!(
        action,
        Action::StoreKey {
            key: " {\"1\": \"A\"}\n".to_string()
        }
    );
}

#[test]
fn solver_failure_carries_its_diagnostics() {
    let (flow, action) =
        at(Stage::Solving).step(Event::SolverReturned(exited(false, "partial", "quota exceeded")));
    assert_eq!(flow, finished(7));
    assert_eq!(
        action,
        Action::Finish(Err(Failure::SolveFailed("quota exceeded".to_string())))
    );
}

#[test]
fn solver_without_output_has_failed() {
    assert_eq!(
        judge(exited(true, "", "nothing to say")),
        Err(Failure::SolveFailed("nothing to say".to_string()))
    );
}

#[test]
fn solver_that_did_not_run_is_a_transport_failure() {
    let (flow, action) = at(Stage::Solving).step(Event::SolverReturned(SolverOutcome::NotRun(
        "engine: not found".to_string(),
    )));
    assert_eq!(flow, finished(7));
    assert_eq!(
        action,
        Action::Finish(Err(Failure::Transport("engine: not found".to_string())))
    );
}

#[test]
fn judge_returns_the_output() {
    assert_eq!(judge(exited(true, "key", "")), Ok("key".to_string()));
    assert_eq!(
        judge(exited(false, "key", "bad")),
        Err(Failure::SolveFailed("bad".to_string()))
    );
}

#[test]
fn stored_key_is_returned() {
    let stage = Stage::Persisting {
        key: "the key".to_string(),
    };
    let (flow, action) = at(stage).step(Event::KeyStored(Ok(())));
    assert_eq!(flow, finished(7));
    assert_eq!(action, Action::Finish(Ok("the key".to_string())));
}

#[test]
fn failed_store_ends_the_run() {
    let stage = Stage::Persisting {
        key: "the key".to_string(),
    };
    let (flow, action) = at(stage).step(Event::KeyStored(Err(broken())));
    assert_eq!(flow, finished(7));
    assert_eq!(action, Action::Finish(Err(Failure::Storage(broken()))));
}

#[test]
fn unexpected_events_change_nothing() {
    let (flow, action) = at(Stage::CheckingCache).step(Event::KeyStored(Ok(())));
    assert_eq!(flow, at(Stage::CheckingCache));
    assert_eq!(action, Action::Ignore);

    let (flow, action) = at(Stage::Solving).step(Event::CacheRead(Ok(None)));
    assert_eq!(flow, at(Stage::Solving));
    assert_eq!(action, Action::Ignore);

    let (flow, action) =
        finished(7).step(Event::SolverReturned(exited(true, "late", "")));
    assert_eq!(flow, finished(7));
    assert_eq!(action, Action::Ignore);

    let stage = Stage::Persisting {
        key: "k".to_string(),
    };
    let (flow, action) = at(stage).step(Event::MembersRead(Ok(vec![])));
    assert_eq!(
        flow,
        at(Stage::Persisting {
            key: "k".to_string()
        })
    );
    assert_eq!(action, Action::Ignore);
}

#[test]
fn a_whole_run_from_miss_to_key() {
    let (flow, action) = Flow::start(11);
    assert_eq!(action, Action::ReadCache);
    let (flow, action) = flow.step(Event::CacheRead(Ok(None)));
    assert_eq!(action, Action::ReadMembers);
    let (flow, action) = flow.step(Event::MembersRead(Ok(vec![question(1, "q", "")])));
    assert_eq!(action, Action::ReadCredential);
    let (flow, action) = flow.step(Event::CredentialRead(Ok(Some("secret".to_string()))));
    assert_eq!(
        action,
        Action::RunSolver {
            arguments: vec![
                "solve".to_string(),
                "--questions".to_string(),
                "[{\"id\":1,\"text\":\"q\"}]".to_string(),
            ],
            credential: "secret".to_string(),
        }
    );
    let (flow, action) = flow.step(Event::SolverReturned(exited(true, "answers", "")));
    assert_eq!(
        action,
        Action::StoreKey {
            key: "answers".to_string()
        }
    );
    let (flow, action) = flow.step(Event::KeyStored(Ok(())));
    assert_eq!(action, Action::Finish(Ok("answers".to_string())));
    assert_eq!(flow, finished(11));
}
