//! The settings of a queue.
use crate::foreign::{default_config, rules_of};
use apalis_core::backend::poll_strategy::MultiStrategy;
use vstd::prelude::*;

verus! {

/// A length of time: whole seconds, and the nanoseconds beyond them, which are
/// always less than a second.
///
/// Its view is the length in nanoseconds.
#[derive(Debug, Clone, Copy, PartialEq, Eq)]
pub struct Interval {
    pub(crate) secs: u64,
    pub(crate) nanos: u32,
}

/// The nanoseconds in a second.
pub const NANOS_PER_SEC: u32 = 1_000_000_000;

/// A number of seconds, in nanoseconds.
pub open spec fn seconds(secs: nat) -> nat {
    secs * 1_000_000_000
}

impl View for Interval {
    type V = nat;

    closed spec fn view(&self) -> nat {
        seconds(self.secs as nat) + self.nanos as nat
    }
}

impl Interval {
    #[verifier::type_invariant]
    spec fn wf(self) -> bool {
        self.nanos < NANOS_PER_SEC
    }

    /// The interval of these seconds and nanoseconds, if the latter are less than
    /// a second.
    pub fn new(secs: u64, nanos: u32) -> (interval: Option<Self>)
        ensures
            match interval {
                Some(interval) => nanos < NANOS_PER_SEC && interval@ == seconds(secs as nat)
                    + nanos as nat,
                None => nanos >= NANOS_PER_SEC,
            },
    {
        if nanos < NANOS_PER_SEC {
            Some(Interval { secs, nanos })
        } else {
            None
        }
    }

    /// The whole seconds.
    pub fn secs(&self) -> (secs: u64)
        ensures
            secs as nat == self@ / 1_000_000_000,
    {
        proof {
            use_type_invariant(self);
        }
        self.secs
    }

    /// The nanoseconds beyond the whole seconds.
    pub fn nanos(&self) -> (nanos: u32)
        ensures
            nanos as nat == self@ % 1_000_000_000,
            nanos < NANOS_PER_SEC,
    {
        proof {
            use_type_invariant(self);
        }
        self.nanos
    }
}

/// A rule by which a schedule decides when to poll.
pub enum PollRule {
    /// An interval with backoff. The first wait is `start_ms`. After a poll that
    /// found nothing the next is `growth_percent` of the last, up to `longest_ms`;
    /// after one that found something it is `start_ms` again. Either is then
    /// varied by up to `jitter_percent` of itself.
    Backoff { start_ms: u64, growth_percent: u64, longest_ms: u64, jitter_percent: u64 },
    /// Any other rule, and a backoff that these whole numbers do not describe.
    Other,
}

/// The schedule of a new queue: polls start 100 ms apart and double to a minute.
pub open spec fn default_rules() -> Seq<PollRule> {
    seq![
        PollRule::Backoff {
            start_ms: 100,
            growth_percent: 200,
            longest_ms: 60_000,
            jitter_percent: 10,
        },
    ]
}

/// Whether two schedules are alike: they are one and the same, or they were built
/// of equal rules, each of which is known in full.
pub open spec fn schedules_alike(one: MultiStrategy, other: MultiStrategy) -> bool {
    ||| one == other
    ||| {
        &&& rules_of(one) == rules_of(other)
        &&& forall|i: int| 0 <= i < rules_of(one).len() ==> rules_of(one)[i] !is Other
    }
}

/// The settings of one queue.
#[derive(Debug)]
pub struct Config {
    /// Time between two keep-alive updates of a worker.
    pub keep_alive: Interval,
    /// How many tasks are fetched at a time.
    pub buffer_size: usize,
    /// When the database is polled for tasks.
    pub poll_strategy: MultiStrategy,
    /// How long a task may stay with a silent worker before it is queued again.
    pub reenqueue_orphaned_after: Interval,
    /// The name of the queue.
    pub queue: String,
    /// Whether finished tasks are acknowledged.
    pub ack: bool,
}

impl Config {
    /// Holds of the settings that a queue of this name starts with: a worker
    /// reports every 30 seconds, tasks come ten at a time, on the schedule of a
    /// new queue, an abandoned task waits five minutes, and finished tasks are
    /// acknowledged.
    pub open spec fn is_default_for(self, queue: Seq<char>) -> bool {
        &&& self.queue@ == queue
        &&& self.keep_alive@ == seconds(30)
        &&& self.buffer_size == 10
        &&& rules_of(self.poll_strategy) == default_rules()
        &&& self.reenqueue_orphaned_after@ == seconds(300)
        &&& self.ack
    }

    /// Whether two configs hold the same settings, with schedules that are alike.
    pub open spec fn agrees_with(self, other: Self) -> bool {
        &&& self.queue@ == other.queue@
        &&& self.keep_alive@ == other.keep_alive@
        &&& self.buffer_size == other.buffer_size
        &&& schedules_alike(self.poll_strategy, other.poll_strategy)
        &&& self.reenqueue_orphaned_after@ == other.reenqueue_orphaned_after@
        &&& self.ack == other.ack
    }

    /// The default settings for a queue.
    pub fn new(queue: &str) -> (config: Config)
        ensures
            config.is_default_for(queue@),
    {
        default_config(queue)
    }
}

impl Clone for Config {
    fn clone(&self) -> (same: Self)
        ensures
            same == *self,
    {
        Config {
            keep_alive: self.keep_alive,
            buffer_size: self.buffer_size,
            poll_strategy: self.poll_strategy.clone(),
            reenqueue_orphaned_after: self.reenqueue_orphaned_after,
            queue: self.queue.clone(),
            ack: self.ack,
        }
    }
}

/// A number of seconds is a thousand million times as many nanoseconds.
pub proof fn law_second_is_a_thousand_million_nanoseconds(secs: nat)
    ensures
        seconds(secs) == secs * 1_000_000_000,
        NANOS_PER_SEC == 1_000_000_000,
{
}

/// An interval gives back the seconds and the nanoseconds that it was made of. It
/// can be made if and only if the nanoseconds are less than a second.
pub proof fn law_interval_gives_back_its_parts(
    secs: u64,
    nanos: u32,
    made: Option<Interval>,
    read_secs: u64,
    read_nanos: u32,
)
    requires
        call_ensures(Interval::new, (secs, nanos), made),
        made matches Some(interval) ==> {
            &&& call_ensures(Interval::secs, (&interval,), read_secs)
            &&& call_ensures(Interval::nanos, (&interval,), read_nanos)
        },
    ensures
        made is Some <==> nanos < 1_000_000_000,
        made is Some ==> read_secs == secs && read_nanos == nanos,
{
}

/// What is read of an interval is its whole length, and less than a second of it
/// is in the nanoseconds.
pub proof fn law_interval_is_its_parts(interval: Interval, secs: u64, nanos: u32)
    requires
        call_ensures(Interval::secs, (&interval,), secs),
        call_ensures(Interval::nanos, (&interval,), nanos),
    ensures
        interval@ == secs * 1_000_000_000 + nanos,
        nanos < 1_000_000_000,
{
}

/// Whatever the name of a queue, it starts under that name, with a worker that
/// reports every 30 seconds, ten tasks at a time, polls that start 100 ms apart
/// and double to a minute, five minutes until a task counts as abandoned, and
/// acknowledgement.
pub proof fn law_queue_starts_with_the_default_settings(
    queue: &str,
    config: Config,
    keep_alive_secs: u64,
    keep_alive_nanos: u32,
    orphaned_secs: u64,
    orphaned_nanos: u32,
)
    requires
        call_ensures(Config::new, (queue,), config),
        call_ensures(Interval::secs, (&config.keep_alive,), keep_alive_secs),
        call_ensures(Interval::nanos, (&config.keep_alive,), keep_alive_nanos),
        call_ensures(Interval::secs, (&config.reenqueue_orphaned_after,), orphaned_secs),
        call_ensures(Interval::nanos, (&config.reenqueue_orphaned_after,), orphaned_nanos),
    ensures
        config.queue@ == queue@,
        keep_alive_secs == 30,
        keep_alive_nanos == 0,
        config.buffer_size == 10,
        orphaned_secs == 300,
        orphaned_nanos == 0,
        config.ack,
        rules_of(config.poll_strategy) == seq![
            PollRule::Backoff {
                start_ms: 100,
                growth_percent: 200,
                longest_ms: 60_000,
                jitter_percent: 10,
            },
        ],
{
}

/// A copy of settings holds every one of them as it was.
pub proof fn law_copied_settings_are_the_same(config: Config, copy: Config)
    requires
        cloned(config, copy),
    ensures
        copy == config,
{
}

/// Configs agree only where each setting of the one is that of the other, and
/// every config agrees with itself.
pub proof fn law_agreeing_configs_hold_the_same_settings(one: Config, other: Config)
    ensures
        one.agrees_with(one),
        one.agrees_with(other) ==> {
            &&& one.queue@ == other.queue@
            &&& one.keep_alive@ == other.keep_alive@
            &&& one.buffer_size == other.buffer_size
            &&& one.reenqueue_orphaned_after@ == other.reenqueue_orphaned_after@
            &&& one.ack == other.ack
            &&& rules_of(one.poll_strategy) == rules_of(other.poll_strategy)
        },
        one.agrees_with(other) <==> other.agrees_with(one),
{
}

} // verus!
