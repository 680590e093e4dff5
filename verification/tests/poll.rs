use apalis_core::backend::codec::json::JsonCodec;
use apalis_core::backend::codec::Codec;
use apalis_core::task::Task;
use apalis_core::worker::context::WorkerContext;
use apalis_surrealdb::fetcher::SurrealFetcher;
use apalis_surrealdb::poll::{PollAction, PollEvent};
use apalis_surrealdb::task::{decode_item, Polled};
use apalis_surrealdb::{CompactType, SurrealContext, SurrealStorage, SurrealTask};
use std::sync::Arc;
use surrealdb::Error;
use ulid::Ulid;

fn thrown(message: &str) -> Error {
    Error::Db(surrealdb::error::Db::Thrown(message.to_string()))
}

fn storage() -> SurrealStorage<u32, JsonCodec<CompactType>, SurrealFetcher, u64> {
    SurrealStorage::new_with_queue(&Arc::new(7u64), "q", Ok(())).unwrap()
}

fn worker() -> WorkerContext {
    WorkerContext::new::<()>("rango-tango-1")
}

fn task(json: &str) -> SurrealTask<CompactType> {
    let context = SurrealContext::new().with_max_attempts(3).with_priority(9);
    let mut task: Task<CompactType, SurrealContext, Ulid> =
        Task::new_with_ctx(json.as_bytes().to_vec(), context);
    task.parts.run_at = 1234;
    SurrealTask { args: task.args, parts: task.parts }
}

fn decode_number(bytes: &CompactType) -> Result<u32, <JsonCodec<CompactType> as Codec<u32>>::Error> {
    JsonCodec::<CompactType>::decode(bytes)
}

fn number(item: Polled<u32>) -> u32 {
    item.unwrap().unwrap().args
}

#[test]
fn poll_registers_first() {
    let poll = storage().poll_compact(&worker());
    match poll.action() {
        PollAction::Register(registration) => {
            assert_eq!(registration.storage, "SurrealStorage");
            assert_eq!(registration.worker.name(), "rango-tango-1");
            assert_eq!(*registration.target.conn, 7);
            assert_eq!(registration.target.config.queue, "q");
        }
        _ => panic!("not a registration"),
    }
}

#[test]
fn poll_fetches_after_the_registration() {
    let mut poll = storage().poll_compact(&worker());
    poll.advance(PollEvent::Registered(Ok(())));
    match poll.action() {
        PollAction::Fetch(fetch) => {
            assert_eq!(fetch.worker.name(), "rango-tango-1");
            assert_eq!(*fetch.target.conn, 7);
            assert_eq!(fetch.target.config.queue, "q");
        }
        _ => panic!("not a fetch"),
    }
}

#[test]
fn registration_is_idle_whether_or_not_it_worked() {
    let mut poll = storage().poll_compact(&worker());
    assert!(matches!(poll.advance(PollEvent::Registered(Ok(()))), Some(Ok(None))));
    let mut poll = storage().poll_compact(&worker());
    let item = poll.advance(PollEvent::Registered(Err(thrown("refused"))));
    assert!(matches!(item, Some(Ok(None))));
    assert!(matches!(poll.action(), PollAction::Fetch(_)));
}

#[test]
fn fetched_items_are_handed_on_in_order_until_the_end() {
    let mut poll = storage().poll_compact(&worker());
    poll.advance(PollEvent::Registered(Ok(())));
    let first = poll.advance(PollEvent::Fetched(Some(Ok(Some(task("1"))))));
    let second = poll.advance(PollEvent::Fetched(Some(Ok(None))));
    let third = poll.advance(PollEvent::Fetched(Some(Err(thrown("hiccup")))));
    let fourth = poll.advance(PollEvent::Fetched(Some(Ok(Some(task("2"))))));
    assert_eq!(first.unwrap().unwrap().unwrap().args, b"1".to_vec());
    assert!(matches!(second, Some(Ok(None))));
    assert_eq!(third.unwrap().err().unwrap().to_string(), "An error occurred: hiccup");
    assert_eq!(fourth.unwrap().unwrap().unwrap().args, b"2".to_vec());
    assert!(matches!(poll.action(), PollAction::Fetch(_)));
    assert!(poll.advance(PollEvent::Fetched(None)).is_none());
    assert!(matches!(poll.action(), PollAction::Stop));
}

#[test]
fn task_poll_decodes_what_is_fetched() {
    let mut poll = storage().poll(&worker());
    assert!(matches!(poll.action(), PollAction::Register(_)));
    let idle = poll.advance(PollEvent::Registered(Err(thrown("refused"))), &decode_number);
    assert!(matches!(idle, Some(Ok(None))));
    let fetched = poll.advance(PollEvent::Fetched(Some(Ok(Some(task("41"))))), &decode_number);
    assert_eq!(number(fetched.unwrap()), 41);
    let error = poll.advance(PollEvent::Fetched(Some(Err(thrown("hiccup")))), &decode_number);
    assert_eq!(error.unwrap().err().unwrap().to_string(), "An error occurred: hiccup");
    assert!(poll.advance(PollEvent::Fetched(None), &decode_number).is_none());
    assert!(matches!(poll.action(), PollAction::Stop));
}

#[test]
fn undecodable_task_takes_its_own_place() {
    let mut poll = storage().poll(&worker());
    poll.advance(PollEvent::Registered(Ok(())), &decode_number);
    let first = poll.advance(PollEvent::Fetched(Some(Ok(Some(task("1"))))), &decode_number);
    let second = poll.advance(PollEvent::Fetched(Some(Ok(Some(task("two"))))), &decode_number);
    let third = poll.advance(PollEvent::Fetched(Some(Ok(Some(task("3"))))), &decode_number);
    assert_eq!(number(first.unwrap()), 1);
    assert!(second.unwrap().is_err());
    assert_eq!(number(third.unwrap()), 3);
}

#[test]
fn decoded_task_keeps_its_parts() {
    let decoded = decode_item(Ok(Some(task("7"))), &decode_number).unwrap().unwrap();
    assert_eq!(decoded.args, 7);
    assert_eq!(decoded.parts.run_at, 1234);
    assert_eq!(decoded.parts.ctx.max_attempts(), 3);
    assert_eq!(decoded.parts.ctx.priority(), 9);
}

#[test]
fn undecodable_task_is_thrown_with_the_text_of_the_decoder() {
    let text = decode_number(&b"seven".to_vec()).unwrap_err().to_string();
    match decode_item(Ok(Some(task("seven"))), &decode_number) {
        Err(Error::Db(surrealdb::error::Db::Thrown(message))) => assert_eq!(message, text),
        _ => panic!("not a thrown error"),
    }
}

#[test]
fn idle_polls_and_errors_are_not_decoded() {
    let never = |_: &CompactType| -> Result<u32, String> { panic!("decoded") };
    assert!(matches!(decode_item(Ok(None), &never), Ok(None)));
    let error = decode_item(Err(thrown("hiccup")), &never).err().unwrap();
    assert_eq!(error.to_string(), "An error occurred: hiccup");
}
