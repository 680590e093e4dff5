//! The layers that a worker puts round its tasks.
use apalis_core::layers::Stack;
use apalis_core::worker::ext::ack::AcknowledgeLayer;
use std::sync::Arc;
use vstd::prelude::*;

verus! {

/// Locks a task to its worker before the task runs.
#[derive(Debug)]
pub struct LockTaskLayer<Conn> {
    pub conn: Arc<Conn>,
}

impl<Conn> LockTaskLayer<Conn> {
    /// Locks tasks over this connection.
    pub fn new(conn: Arc<Conn>) -> (layer: Self)
        ensures
            layer == (LockTaskLayer { conn }),
    {
        LockTaskLayer { conn }
    }
}

/// Records the outcome of a task once it has run.
#[derive(Debug)]
pub struct SurrealAck<Conn> {
    pub conn: Arc<Conn>,
}

impl<Conn> SurrealAck<Conn> {
    /// Records outcomes over this connection.
    pub fn new(conn: Arc<Conn>) -> (ack: Self)
        ensures
            ack == (SurrealAck { conn }),
    {
        SurrealAck { conn }
    }
}

/// Holds of the layers that lock tasks on the inside and acknowledge them on the
/// outside, both over this connection, put together as the worker library does.
pub open spec fn lock_within_ack<Conn>(
    conn: Arc<Conn>,
    layers: Stack<LockTaskLayer<Conn>, AcknowledgeLayer<SurrealAck<Conn>>>,
) -> bool {
    exists|ack_layer: AcknowledgeLayer<SurrealAck<Conn>>|
        {
            &&& #[trigger] call_ensures(
                AcknowledgeLayer::<SurrealAck<Conn>>::new,
                (SurrealAck { conn },),
                ack_layer,
            )
            &&& call_ensures(
                Stack::<LockTaskLayer<Conn>, AcknowledgeLayer<SurrealAck<Conn>>>::new,
                (LockTaskLayer { conn }, ack_layer),
                layers,
            )
        }
}

/// Tasks are locked, and outcomes recorded, over the connection that was given.
pub proof fn law_layers_use_their_connection<Conn>(
    conn: Arc<Conn>,
    lock: LockTaskLayer<Conn>,
    ack: SurrealAck<Conn>,
)
    requires
        call_ensures(LockTaskLayer::<Conn>::new, (conn,), lock),
        call_ensures(SurrealAck::<Conn>::new, (conn,), ack),
    ensures
        lock.conn == conn,
        ack.conn == conn,
{
}

} // verus!
