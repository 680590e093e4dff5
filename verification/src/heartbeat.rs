//! The signs of life that a worker gives, and the tasks that are taken back from
//! workers that give none.
use crate::config::{seconds, Interval};
use crate::sink::Target;
use apalis_core::worker::context::WorkerContext;
use surrealdb::Error;
use vstd::prelude::*;

verus! {

/// Reports a worker to the database again and again.
pub struct KeepAlive<Conn> {
    pub target: Target<Conn>,
    pub worker: WorkerContext,
}

/// Puts abandoned tasks back into the queue, again and again.
pub struct ReenqueueOrphaned<Conn> {
    pub target: Target<Conn>,
    /// The time between two rounds.
    pub every: Interval,
}

/// The two streams that make up a heartbeat.
pub struct Heartbeat<Conn> {
    pub keep_alive: KeepAlive<Conn>,
    pub reenqueue: ReenqueueOrphaned<Conn>,
}

/// The heartbeat of a worker on a queue. Abandoned tasks are looked for as often
/// as the worker reports.
pub open spec fn heartbeat_of<Conn>(target: Target<Conn>, worker: WorkerContext) -> Heartbeat<
    Conn,
> {
    Heartbeat {
        keep_alive: KeepAlive { target, worker },
        reenqueue: ReenqueueOrphaned { target, every: target.config.keep_alive },
    }
}

/// The beat that a round of taking tasks back gives: whatever it took back, only
/// whether it worked.
pub fn reenqueue_beat<N>(round: Result<N, Error>) -> (beat: Result<(), Error>)
    ensures
        beat == match round {
            Ok(_) => Ok(()),
            Err(error) => Err(error),
        },
{
    match round {
        Ok(_) => Ok(()),
        Err(error) => Err(error),
    }
}

/// Both requests of a heartbeat are addressed to the queue of the worker, with
/// its connection and all its settings; the worker that reports is the one that
/// was given, and abandoned tasks are looked for at the pace of its reports.
pub proof fn law_heartbeat_carries_worker_and_settings<Conn>(
    target: Target<Conn>,
    worker: WorkerContext,
)
    ensures
        heartbeat_of(target, worker).keep_alive.target == target,
        heartbeat_of(target, worker).keep_alive.worker == worker,
        heartbeat_of(target, worker).reenqueue.target == target,
        heartbeat_of(target, worker).reenqueue.every == target.config.keep_alive,
{
}

/// On a queue with the settings that it starts with, a worker reports every half
/// minute, a task is taken from a silent worker after five minutes, and such
/// tasks are looked for every half minute.
pub proof fn law_default_heartbeat_leaves_a_worker_time<Conn>(
    target: Target<Conn>,
    queue: Seq<char>,
    worker: WorkerContext,
)
    requires
        target.config.is_default_for(queue),
    ensures
        ({
            let beat = heartbeat_of(target, worker);
            &&& beat.keep_alive.target.config.keep_alive@ == seconds(30)
            &&& beat.reenqueue.target.config.reenqueue_orphaned_after@ == seconds(300)
            &&& beat.reenqueue.every@ == seconds(30)
            &&& beat.keep_alive.target.config.queue@ == queue
            &&& beat.reenqueue.target.config.queue@ == queue
        }),
{
}

/// A round of taking tasks back is a beat that worked if and only if the round
/// did, however many tasks it took back; its error is that of the round.
pub proof fn law_beat_works_as_its_round_did<N>(
    round: Result<N, Error>,
    beat: Result<(), Error>,
)
    requires
        call_ensures(reenqueue_beat::<N>, (round,), beat),
    ensures
        beat is Ok <==> round is Ok,
        round matches Err(error) ==> beat == Err::<(), Error>(error),
{
}

} // verus!
