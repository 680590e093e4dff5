//! Where new tasks are written.
use crate::config::Config;
use core::marker::PhantomData;
use std::sync::Arc;
use vstd::prelude::*;

verus! {

/// A queue on a connection: what every request of the storage is addressed to.
pub struct Target<Conn> {
    pub conn: Arc<Conn>,
    pub config: Config,
}

impl<Conn> Target<Conn> {
    /// Addresses the queue with these settings on this connection.
    pub fn new(conn: &Arc<Conn>, config: &Config) -> (target: Self)
        ensures
            target == (Target { conn: *conn, config: *config }),
    {
        Target { conn: conn.clone(), config: config.clone() }
    }
}

impl<Conn> Clone for Target<Conn> {
    fn clone(&self) -> (same: Self)
        ensures
            same == *self,
    {
        Target::new(&self.conn, &self.config)
    }
}

/// The sink for tasks of type `T`, encoded as `Compact` by the codec `C`.
pub struct SurrealSink<T, Compact, C, Conn> {
    target: Target<Conn>,
    task_type: PhantomData<T>,
    compact: PhantomData<Compact>,
    codec: PhantomData<C>,
}

impl<T, Compact, C, Conn> View for SurrealSink<T, Compact, C, Conn> {
    type V = Target<Conn>;

    closed spec fn view(&self) -> Target<Conn> {
        self.target
    }
}

impl<T, Compact, C, Conn> SurrealSink<T, Compact, C, Conn> {
    /// A sink that writes to the queue with these settings on this connection.
    pub fn new(conn: &Arc<Conn>, config: &Config) -> (sink: Self)
        ensures
            sink@ == (Target { conn: *conn, config: *config }),
    {
        SurrealSink {
            target: Target::new(conn, config),
            task_type: PhantomData,
            compact: PhantomData,
            codec: PhantomData,
        }
    }

    /// The queue that the sink writes to.
    pub fn target(&self) -> (target: &Target<Conn>)
        ensures
            *target == self@,
    {
        &self.target
    }
}

impl<T, Compact, C, Conn> Clone for SurrealSink<T, Compact, C, Conn> {
    fn clone(&self) -> (same: Self)
        ensures
            same@ == self@,
    {
        SurrealSink {
            target: self.target.clone(),
            task_type: PhantomData,
            compact: PhantomData,
            codec: PhantomData,
        }
    }
}

/// A queue is addressed over the connection and with all the settings that were
/// given, a sink writes to that queue, and copies of either change nothing.
pub proof fn law_sink_writes_where_it_is_told<T, Compact, C, Conn>(
    conn: Arc<Conn>,
    config: Config,
    target: Target<Conn>,
    target_copy: Target<Conn>,
    sink: SurrealSink<T, Compact, C, Conn>,
    sink_copy: SurrealSink<T, Compact, C, Conn>,
    written: &Target<Conn>,
    written_by_copy: &Target<Conn>,
)
    requires
        call_ensures(Target::<Conn>::new, (&conn, &config), target),
        cloned(target, target_copy),
        call_ensures(SurrealSink::<T, Compact, C, Conn>::new, (&conn, &config), sink),
        cloned(sink, sink_copy),
        call_ensures(SurrealSink::<T, Compact, C, Conn>::target, (&sink,), written),
        call_ensures(SurrealSink::<T, Compact, C, Conn>::target, (&sink_copy,), written_by_copy),
    ensures
        target.conn == conn,
        target.config == config,
        target_copy == target,
        written.conn == conn,
        written.config == config,
        *written_by_copy == *written,
{
}

} // verus!
