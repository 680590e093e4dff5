//! What the library takes from outside crates.
//!
//! The types are opaque here: they are carried through, not looked into. What
//! is said of each function holds by its source and is not proved.
use crate::config::{default_rules, seconds, Config, Interval, PollRule};
use crate::task::SurrealTask;
use apalis_core::backend::poll_strategy::MultiStrategy;
use apalis_core::layers::Stack;
use apalis_core::task::Task;
use apalis_core::worker::context::WorkerContext;
use apalis_core::worker::ext::ack::AcknowledgeLayer;
use surrealdb::{Error, Response};
use vstd::prelude::*;

verus! {

/// `surrealdb::Error`, an error of the database client.
#[verifier::external_type_specification]
#[verifier::external_body]
pub struct ExError(surrealdb::Error);

/// `surrealdb::Response`, the answer to a query of one or more statements.
#[verifier::external_type_specification]
#[verifier::external_body]
pub struct ExResponse(surrealdb::Response);

/// `apalis_sql`'s `SqlContext`, which a queue keeps beside each task.
#[verifier::external_type_specification]
#[verifier::external_body]
pub struct ExSqlContext(apalis_sql::context::SqlContext);

/// `ulid::Ulid`, the id of a task.
#[verifier::external_type_specification]
#[verifier::external_body]
pub struct ExUlid(ulid::Ulid);

/// `apalis_core`'s `WorkerContext`, a shared handle on a worker.
#[verifier::external_type_specification]
#[verifier::external_body]
pub struct ExWorkerContext(apalis_core::worker::context::WorkerContext);

/// `apalis_core`'s `WorkerError`, which a `WorkerContext` resolves to.
#[verifier::external_type_specification]
#[verifier::external_body]
pub struct ExWorkerError(apalis_core::error::WorkerError);

/// `apalis_core`'s `MultiStrategy`, a shared polling schedule.
#[verifier::external_type_specification]
#[verifier::external_body]
pub struct ExMultiStrategy(apalis_core::backend::poll_strategy::MultiStrategy);

/// `apalis_core`'s `Parts`: all of a task but its arguments.
#[verifier::external_type_specification]
#[verifier::external_body]
#[verifier::reject_recursive_types(Context)]
#[verifier::reject_recursive_types(IdType)]
pub struct ExParts<Context, IdType>(apalis_core::task::Parts<Context, IdType>);

/// `apalis_core`'s `JsonCodec`, which encodes task arguments as JSON.
#[verifier::external_type_specification]
#[verifier::external_body]
#[verifier::reject_recursive_types(Output)]
pub struct ExJsonCodec<Output>(apalis_core::backend::codec::json::JsonCodec<Output>);

/// `apalis_core`'s `AcknowledgeLayer`, which runs an acknowledger after a task.
#[verifier::external_type_specification]
#[verifier::external_body]
#[verifier::reject_recursive_types(A)]
pub struct ExAcknowledgeLayer<A>(apalis_core::worker::ext::ack::AcknowledgeLayer<A>);

/// `apalis_core`'s `Stack`: two layers, one inside the other.
#[verifier::external_type_specification]
#[verifier::external_body]
#[verifier::reject_recursive_types(Inner)]
#[verifier::reject_recursive_types(Outer)]
pub struct ExStack<Inner, Outer>(apalis_core::layers::Stack<Inner, Outer>);

/// The database error that carries a text of our own.
pub uninterp spec fn thrown_error(message: Seq<char>) -> Error;

/// `surrealdb::error::Db::Thrown`, as a `surrealdb::Error`. The error is
/// determined by the message.
#[verifier::external_body]
pub(crate) fn thrown(message: String) -> (error: Error)
    ensures
        error == thrown_error(message@),
{
    surrealdb::Error::Db(surrealdb::error::Db::Thrown(message))
}

/// For each statement that a response holds a result of, in the order in which
/// it holds them, the error of the statement if it failed.
pub uninterp spec fn statement_errors(response: Response) -> Seq<Option<Error>>;

/// The first error in a sequence of outcomes.
pub open spec fn first_error(errors: Seq<Option<Error>>) -> Option<Error>
    decreases errors.len(),
{
    if errors.len() == 0 {
        None
    } else if errors[0] is Some {
        errors[0]
    } else {
        first_error(errors.drop_first())
    }
}

/// `surrealdb::Response::check`. It gives back the response if no statement
/// failed, and otherwise the error of the first statement that did.
#[verifier::external_body]
pub(crate) fn check_response(response: Response) -> (checked: Result<Response, Error>)
    ensures
        match checked {
            Ok(same) => same == response && first_error(statement_errors(response)) is None,
            Err(error) => first_error(statement_errors(response)) == Some(error),
        },
{
    response.check()
}

/// The rules that a schedule was built of, in the order in which
/// `StrategyBuilder` was given them.
pub uninterp spec fn rules_of(schedule: MultiStrategy) -> Seq<PollRule>;

/// `apalis_sql::config::Config::new`, field by field. All settings but the name
/// are fixed; the schedule, which is made anew by each call, is built of one
/// interval of 100 ms with the default backoff: twice the wait each time, a
/// minute at most, a tenth of jitter.
#[verifier::external_body]
pub(crate) fn default_config(queue: &str) -> (config: Config)
    ensures
        config.queue@ == queue@,
        config.keep_alive@ == seconds(30),
        config.buffer_size == 10,
        rules_of(config.poll_strategy) == default_rules(),
        config.reenqueue_orphaned_after@ == seconds(300),
        config.ack,
{
    let config = apalis_sql::config::Config::new(queue);
    let orphaned = config.reenqueue_orphaned_after();
    let alive = config.keep_alive();
    Config {
        keep_alive: Interval { secs: alive.as_secs(), nanos: alive.subsec_nanos() },
        buffer_size: config.buffer_size(),
        poll_strategy: config.poll_strategy().clone(),
        reenqueue_orphaned_after: Interval {
            secs: orphaned.as_secs(),
            nanos: orphaned.subsec_nanos(),
        },
        queue: config.queue().to_string(),
        ack: config.ack(),
    }
}

/// `apalis_core::task::Task::try_map`. The function is applied to the arguments;
/// the other parts of the task stay as they are, and an error of the function
/// is handed on.
#[verifier::external_body]
pub(crate) fn try_map<Args, NewArgs, E, F: FnOnce(Args) -> Result<NewArgs, E>>(
    task: SurrealTask<Args>,
    f: F,
) -> (mapped: Result<SurrealTask<NewArgs>, E>)
    requires
        f.requires((task.args,)),
    ensures
        match mapped {
            Ok(new) => f.ensures((task.args,), Ok(new.args)) && new.parts == task.parts,
            Err(error) => f.ensures((task.args,), Err(error)),
        },
{
    let task = Task { args: task.args, parts: task.parts };
    match task.try_map(f) {
        Ok(new) => Ok(SurrealTask { args: new.args, parts: new.parts }),
        Err(error) => Err(error),
    }
}

/// `WorkerContext::clone` gives another handle on the same worker.
pub assume_specification[ <WorkerContext as Clone>::clone ](worker: &WorkerContext) -> (same:
    WorkerContext)
    ensures
        same == *worker,
;

/// `MultiStrategy::clone` gives another handle on the same schedule.
pub assume_specification[ <MultiStrategy as Clone>::clone ](strategy: &MultiStrategy) -> (same:
    MultiStrategy)
    ensures
        same == *strategy,
;

/// `AcknowledgeLayer::new` takes any acknowledger. The layer is private to its
/// crate, so that nothing is said of it but that it comes from this call.
pub assume_specification<A>[ AcknowledgeLayer::<A>::new ](acknowledger: A) -> AcknowledgeLayer<A>
;

/// `Stack::new` takes any two layers. The stack is private to its crate, so
/// that nothing is said of it but that it comes from this call.
pub assume_specification<Inner, Outer>[ Stack::<Inner, Outer>::new ](
    inner: Inner,
    outer: Outer,
) -> Stack<Inner, Outer>
;

} // verus!
