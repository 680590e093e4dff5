use apalis_surrealdb::query_file_as_str;
use apalis_surrealdb::setup::{Session, SetupEvent, SetupStep};
use apalis_surrealdb::SurrealStorage;
use surrealdb::engine::any::{connect, Any};
use surrealdb::{Error, Response, Surreal};

fn thrown(message: &str) -> Error {
    Error::Db(surrealdb::error::Db::Thrown(message.to_string()))
}

fn thrown_text(error: &Error) -> &str {
    match error {
        Error::Db(surrealdb::error::Db::Thrown(message)) => message,
        other => panic!("not a thrown error: {}", other),
    }
}

fn run<F: std::future::Future>(future: F) -> F::Output {
    tokio::runtime::Builder::new_current_thread()
        .enable_all()
        .build()
        .unwrap()
        .block_on(future)
}

async fn database() -> Surreal<Any> {
    let db = connect("mem://").await.unwrap();
    let session = Session::of_queues();
    db.use_ns(session.namespace).use_db(session.database).await.unwrap();
    db
}

fn answer(script: &str) -> Response {
    run(async {
        let db = database().await;
        db.query(script).await.unwrap()
    })
}

fn after_read(text: &str) -> SetupStep {
    SurrealStorage::setup().advance(SetupEvent::ScriptRead(Ok(text.to_string())))
}

fn after_selection(text: &str) -> SetupStep {
    after_read(text).advance(SetupEvent::SessionSelected(Ok(())))
}

#[test]
fn read_query_is_returned() {
    let query = query_file_as_str(Ok("DEFINE TABLE job;".to_string()));
    assert_eq!(query.unwrap(), "DEFINE TABLE job;");
}

#[test]
fn read_failure_is_thrown_with_its_text() {
    let error = query_file_as_str(Err("No such file".to_string())).unwrap_err();
    assert_eq!(thrown_text(&error), "No such file");
    assert_eq!(error.to_string(), "An error occurred: No such file");
}

#[test]
fn setup_starts_by_reading_the_script() {
    match SurrealStorage::setup() {
        SetupStep::ReadScript { path } => assert_eq!(path, "migrations/init_setup.surql"),
        _ => panic!("not a read"),
    }
}

#[test]
fn setup_selects_the_session_after_the_read() {
    match after_read("RETURN 1;") {
        SetupStep::SelectSession { session, script } => {
            assert_eq!(session.namespace, "apalis");
            assert_eq!(session.database, "apalis");
            assert_eq!(script, "RETURN 1;");
        }
        _ => panic!("not a selection"),
    }
}

#[test]
fn setup_runs_the_script_as_read() {
    match after_selection("RETURN 1;\nRETURN 2;") {
        SetupStep::RunScript { script } => assert_eq!(script, "RETURN 1;\nRETURN 2;"),
        _ => panic!("not a run"),
    }
}

#[test]
fn setup_fails_when_the_script_cannot_be_read() {
    let step = SurrealStorage::setup()
        .advance(SetupEvent::ScriptRead(Err("permission denied".to_string())));
    match step {
        SetupStep::Finished(Err(error)) => assert_eq!(thrown_text(&error), "permission denied"),
        _ => panic!("not a failure"),
    }
}

#[test]
fn setup_fails_when_the_session_cannot_be_selected() {
    let step = after_read("RETURN 1;").advance(SetupEvent::SessionSelected(Err(thrown("no ns"))));
    match step {
        SetupStep::Finished(Err(error)) => assert_eq!(thrown_text(&error), "no ns"),
        _ => panic!("not a failure"),
    }
}

#[test]
fn setup_fails_when_the_query_fails() {
    let step = after_selection("RETURN").advance(SetupEvent::ScriptAnswered(Err(thrown("parse"))));
    match step {
        SetupStep::Finished(Err(error)) => assert_eq!(thrown_text(&error), "parse"),
        _ => panic!("not a failure"),
    }
}

#[test]
fn setup_succeeds_when_every_statement_does() {
    let script = "DEFINE TABLE job SCHEMALESS; CREATE job:one SET n = 1;";
    let step = after_selection(script).advance(SetupEvent::ScriptAnswered(Ok(answer(script))));
    assert!(matches!(step, SetupStep::Finished(Ok(()))));
}

#[test]
fn setup_fails_with_the_first_failing_statement() {
    let script = "RETURN 1; THROW 'first'; THROW 'second'; RETURN 2;";
    let step = after_selection(script).advance(SetupEvent::ScriptAnswered(Ok(answer(script))));
    match step {
        SetupStep::Finished(Err(error)) => {
            assert_eq!(error.to_string(), "An error occurred: first")
        }
        _ => panic!("not a failure"),
    }
}

#[test]
fn conclusion_keeps_the_error_of_the_check() {
    match SetupStep::conclude(Err(thrown("bad statement"))) {
        SetupStep::Finished(Err(error)) => assert_eq!(thrown_text(&error), "bad statement"),
        _ => panic!("not a failure"),
    }
    let checked = SetupStep::conclude(Ok(answer("RETURN 1;")));
    assert!(matches!(checked, SetupStep::Finished(Ok(()))));
}

#[test]
fn finished_setup_ignores_events() {
    let step = SetupStep::Finished(Ok(())).advance(SetupEvent::SessionSelected(Err(thrown("late"))));
    assert!(matches!(step, SetupStep::Finished(Ok(()))));
    let step = SetupStep::Finished(Err(thrown("early")))
        .advance(SetupEvent::ScriptRead(Ok("RETURN 1;".to_string())));
    match step {
        SetupStep::Finished(Err(error)) => assert_eq!(thrown_text(&error), "early"),
        _ => panic!("not a failure"),
    }
}

#[test]
fn unexpected_event_leaves_the_step() {
    let step = SurrealStorage::setup().advance(SetupEvent::SessionSelected(Ok(())));
    assert!(matches!(step, SetupStep::ReadScript { .. }));
    let step = after_read("RETURN 1;").advance(SetupEvent::ScriptRead(Ok("RETURN 2;".to_string())));
    match step {
        SetupStep::SelectSession { script, .. } => assert_eq!(script, "RETURN 1;"),
        _ => panic!("not a selection"),
    }
}

#[test]
fn setup_prepares_a_database() {
    let script = "DEFINE TABLE job SCHEMALESS; CREATE job:one SET n = 41;";
    run(async {
        let db = connect("mem://").await.unwrap();
        let mut step = SurrealStorage::setup();
        let mut selections: u32 = 0;
        loop {
            let event = match &step {
                SetupStep::ReadScript { .. } => SetupEvent::ScriptRead(Ok(script.to_string())),
                SetupStep::SelectSession { session, .. } => {
                    selections += 1;
                    SetupEvent::SessionSelected(
                        db.use_ns(session.namespace).use_db(session.database).await,
                    )
                }
                SetupStep::RunScript { script } => {
                    SetupEvent::ScriptAnswered(db.query(script.as_str()).await)
                }
                SetupStep::Finished(_) => break,
            };
            step = step.advance(event);
        }
        assert!(matches!(step, SetupStep::Finished(Ok(()))));
        assert_eq!(selections, 1);
        let mut found = db.query("SELECT VALUE n FROM job;").await.unwrap();
        let numbers: Vec<u32> = found.take(0).unwrap();
        assert_eq!(numbers, vec![41]);
    });
}
