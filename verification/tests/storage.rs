use apalis_core::backend::codec::json::JsonCodec;
use apalis_core::worker::context::WorkerContext;
use apalis_surrealdb::fetcher::SurrealFetcher;
use apalis_surrealdb::heartbeat::reenqueue_beat;
use apalis_surrealdb::poll::PollAction;
use apalis_surrealdb::{CompactType, Config, Interval, SurrealStorage};
use std::marker::PhantomData;
use std::sync::Arc;
use surrealdb::engine::any::Any;
use surrealdb::{Error, Surreal};

fn thrown(message: &str) -> Error {
    Error::Db(surrealdb::error::Db::Thrown(message.to_string()))
}

fn storage(queue: &str) -> SurrealStorage<u32, JsonCodec<CompactType>, SurrealFetcher, u64> {
    SurrealStorage::new_with_queue(&Arc::new(7u64), queue, Ok(())).unwrap()
}

fn interval(secs: u64, nanos: u32) -> Interval {
    Interval::new(secs, nanos).unwrap()
}

fn worker(name: &str) -> WorkerContext {
    WorkerContext::new::<()>(name)
}

#[test]
fn default_settings_of_a_queue() {
    let config = Config::new("reminders");
    assert_eq!(config.queue, "reminders");
    assert_eq!(config.keep_alive, interval(30, 0));
    assert_eq!(config.buffer_size, 10);
    assert_eq!(config.reenqueue_orphaned_after, interval(300, 0));
    assert!(config.ack);
    assert_eq!(format!("{:?}", config.poll_strategy), "MultiStrategy { strategies: 1 }");
}

#[test]
fn interval_holds_less_than_a_second_of_nanoseconds() {
    let longest = Interval::new(u64::MAX, 999_999_999).unwrap();
    assert_eq!(longest.secs(), u64::MAX);
    assert_eq!(longest.nanos(), 999_999_999);
    assert!(Interval::new(0, 1_000_000_000).is_none());
    assert!(Interval::new(1, u32::MAX).is_none());
}

#[test]
fn constructors_agree_on_the_settings() {
    let db = Arc::new(7u64);
    let config = Config::new("u32");
    let all = vec![
        SurrealStorage::<u32, (), (), u64>::new(&db, "u32", Ok(())).unwrap(),
        SurrealStorage::<u32, (), (), u64>::new_with_queue(&db, "u32", Ok(())).unwrap(),
        SurrealStorage::<u32, (), (), u64>::new_with_config(&db, &config, Ok(())).unwrap(),
    ];
    for storage in &all {
        assert!(std::ptr::eq(storage.conn(), &*db));
        assert_eq!(format!("{:?}", storage.config()), format!("{:?}", config));
    }
}

#[test]
fn task_type_has_no_influence_on_the_settings() {
    let db = Arc::new(7u64);
    let numbers = SurrealStorage::<u32, (), (), u64>::new_with_queue(&db, "q", Ok(())).unwrap();
    let texts = SurrealStorage::<String, (), (), u64>::new_with_queue(&db, "q", Ok(())).unwrap();
    assert_eq!(format!("{:?}", numbers.config()), format!("{:?}", texts.config()));
    assert!(std::ptr::eq(numbers.conn(), texts.conn()));
}

#[test]
fn task_type_adds_nothing_to_given_settings() {
    let db = Arc::new(7u64);
    let mut config = Config::new("q");
    config.buffer_size = 3;
    config.keep_alive = interval(12, 34);
    let numbers =
        SurrealStorage::<u32, (), (), u64>::new_with_config(&db, &config, Ok(())).unwrap();
    let texts =
        SurrealStorage::<String, (), (), u64>::new_with_config(&db, &config, Ok(())).unwrap();
    assert_eq!(format!("{:?}", numbers.config()), format!("{:?}", config));
    assert_eq!(format!("{:?}", texts.config()), format!("{:?}", config));
}

#[test]
fn cloned_settings_are_the_same() {
    let mut config = Config::new("reminders");
    config.keep_alive = interval(5, 250);
    config.buffer_size = 3;
    config.ack = false;
    let copy = config.clone();
    assert_eq!(copy.queue, "reminders");
    assert_eq!(copy.keep_alive, interval(5, 250));
    assert_eq!(copy.buffer_size, 3);
    assert_eq!(copy.reenqueue_orphaned_after, interval(300, 0));
    assert!(!copy.ack);
}

#[test]
fn new_names_the_queue_as_it_is_told() {
    let db = Arc::new(Surreal::<Any>::init());
    let storage = SurrealStorage::<u32, (), ()>::new(&db, "u32", Ok(()));
    let storage = storage.unwrap();
    assert_eq!(storage.config().queue, "u32");
    assert!(std::ptr::eq(storage.conn(), &*db));
}

#[test]
fn new_with_queue_names_the_queue() {
    let db = Arc::new(Surreal::<Any>::init());
    let storage = SurrealStorage::<u32, (), ()>::new_with_queue(&db, "workflow-queue", Ok(()));
    let storage = storage.unwrap();
    assert_eq!(storage.config().queue, "workflow-queue");
    assert_eq!(storage.config().keep_alive, interval(30, 0));
    assert!(std::ptr::eq(storage.conn(), &*db));
}

#[test]
fn new_with_config_keeps_the_settings() {
    let db = Arc::new(7u64);
    let mut config = Config::new("workflow-queue");
    config.keep_alive = interval(1, 500_000_000);
    config.buffer_size = 99;
    let storage = SurrealStorage::<u32, (), (), u64>::new_with_config(&db, &config, Ok(()));
    let storage = storage.unwrap();
    assert_eq!(storage.config().queue, "workflow-queue");
    assert_eq!(storage.config().keep_alive, interval(1, 500_000_000));
    assert_eq!(storage.config().buffer_size, 99);
    assert_eq!(*storage.conn(), 7);
}

#[test]
fn constructors_fail_when_the_session_was_not_selected() {
    let db = Arc::new(7u64);
    let config = Config::new("q");
    let errors = vec![
        SurrealStorage::<u32, (), (), u64>::new(&db, "u32", Err(thrown("a"))).err(),
        SurrealStorage::<u32, (), (), u64>::new_with_queue(&db, "q", Err(thrown("b"))).err(),
        SurrealStorage::<u32, (), (), u64>::new_with_config(&db, &config, Err(thrown("c"))).err(),
    ];
    let texts: Vec<String> = errors.into_iter().map(|e| e.unwrap().to_string()).collect();
    assert_eq!(
        texts,
        vec!["An error occurred: a", "An error occurred: b", "An error occurred: c"]
    );
}

#[test]
fn codec_change_keeps_connection_and_settings() {
    let db = Arc::new(7u64);
    let storage = SurrealStorage::<u32, (), (), u64>::new_with_queue(&db, "q", Ok(())).unwrap();
    let recoded = storage.with_codec::<String>().with_codec::<bool>();
    assert_eq!(recoded.config().queue, "q");
    assert!(std::ptr::eq(recoded.conn(), &*db));
    assert!(Arc::ptr_eq(&recoded.sink().target().conn, &db));
    assert_eq!(recoded.sink().target().config.queue, "q");
}

#[test]
fn clones_share_the_connection() {
    let db = Arc::new(7u64);
    let storage = SurrealStorage::<u32, (), (), u64>::new_with_queue(&db, "q", Ok(())).unwrap();
    let copy = storage.clone();
    assert!(std::ptr::eq(storage.conn(), copy.conn()));
    assert_eq!(copy.config().queue, "q");
    assert_eq!(copy.config().buffer_size, 10);
    assert!(Arc::ptr_eq(&copy.sink().target().conn, &db));
    assert_eq!(copy.sink().target().config.queue, "q");
}

#[test]
fn new_storage_writes_where_it_reads() {
    let db = Arc::new(7u64);
    let storage = SurrealStorage::<u32, (), (), u64>::new(&db, "u32", Ok(())).unwrap();
    assert!(Arc::ptr_eq(&storage.sink().target().conn, &db));
    assert_eq!(storage.sink().target().config.queue, storage.config().queue);
}

#[test]
fn debug_view_shows_connection_codec_and_settings() {
    let storage = storage("q");
    let shown = storage.fmt("JsonCodec");
    assert_eq!(shown.title, "SurrealStorage");
    let (conn, job_type, codec, config) = shown.fields;
    assert_eq!([conn.label, job_type.label, codec.label, config.label], [
        "conn", "job_type", "codec", "config",
    ]);
    assert_eq!(*conn.value, 7);
    assert_eq!(job_type.value, PhantomData::<u32>);
    assert_eq!(codec.value, "JsonCodec");
    assert_eq!(config.value.queue, "q");
}

#[test]
fn heartbeat_reports_and_takes_back_at_the_same_pace() {
    let db = Arc::new(7u64);
    let mut config = Config::new("q");
    config.keep_alive = interval(12, 34);
    let storage =
        SurrealStorage::<u32, (), (), u64>::new_with_config(&db, &config, Ok(())).unwrap();
    let heartbeat = storage.heartbeat(&worker("rango-tango"));
    assert_eq!(heartbeat.keep_alive.worker.name(), "rango-tango");
    assert_eq!(*heartbeat.keep_alive.target.conn, 7);
    assert_eq!(heartbeat.keep_alive.target.config.queue, "q");
    assert_eq!(*heartbeat.reenqueue.target.conn, 7);
    assert_eq!(heartbeat.reenqueue.target.config.queue, "q");
    assert_eq!(heartbeat.reenqueue.every, interval(12, 34));
}

#[test]
fn default_queue_looks_for_orphans_every_half_minute() {
    let heartbeat = storage("q").heartbeat(&worker("w"));
    assert_eq!(heartbeat.reenqueue.every, interval(30, 0));
}

#[test]
fn codec_change_keeps_the_requests() {
    let recoded = storage("q").with_codec::<bool>();
    let heartbeat = recoded.heartbeat(&worker("w"));
    assert_eq!(heartbeat.reenqueue.every, interval(30, 0));
    let poll = recoded.poll_compact(&worker("w"));
    match poll.action() {
        PollAction::Register(registration) => assert_eq!(registration.target.config.queue, "q"),
        _ => panic!("not a registration"),
    }
}

#[test]
fn round_of_taking_back_is_a_beat() {
    assert!(reenqueue_beat(Ok(12u64)).is_ok());
    let error = reenqueue_beat::<u64>(Err(thrown("lost"))).unwrap_err();
    assert_eq!(error.to_string(), "An error occurred: lost");
}

#[test]
fn middleware_locks_inside_and_acknowledges_outside() {
    let layers = storage("q").middleware();
    assert_eq!(
        format!("{:?}", layers),
        "AcknowledgeLayer { acknowledger: SurrealAck { conn: 7 } }, LockTaskLayer { conn: 7 }"
    );
}
