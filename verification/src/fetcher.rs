//! How tasks are fetched.
use crate::sink::Target;
use apalis_core::worker::context::WorkerContext;
use vstd::prelude::*;

verus! {

/// Marks a storage whose tasks are fetched by polling the database.
#[derive(Debug, Clone, Copy, PartialEq, Eq, Structural)]
pub struct SurrealFetcher;

/// Asks for the tasks of a queue on behalf of a worker.
pub struct FetchRequest<Conn> {
    pub target: Target<Conn>,
    pub worker: WorkerContext,
}

} // verus!
