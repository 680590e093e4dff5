//! A task queue storage on SurrealDB for apalis workers.
//!
//! The storage decides what is asked of the database and what becomes of the
//! answers: which session is selected, how the schema script is applied, what a
//! worker registers and fetches, what its heartbeats are, and how fetched tasks
//! are decoded. The requests are plain values; whoever embeds the library
//! performs them and hands the outcomes back.
use apalis_sql::context::SqlContext;
use vstd::prelude::*;

pub mod ack;
pub mod config;
pub mod fetcher;
pub mod foreign;
pub mod heartbeat;
pub mod poll;
pub mod setup;
pub mod sink;
pub mod storage;
pub mod task;

pub use crate::config::{Config, Interval};
pub use crate::setup::query_file_as_str;
pub use crate::storage::SurrealStorage;
pub use crate::task::SurrealTask;

verus! {

/// The context that the queue keeps beside each task.
pub type SurrealContext = SqlContext;

/// The encoded form in which task arguments are stored.
pub type CompactType = Vec<u8>;

} // verus!
