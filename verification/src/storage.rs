//! The storage of a queue.
use crate::ack::{lock_within_ack, LockTaskLayer, SurrealAck};
use crate::config::{seconds, Config};
use crate::fetcher::SurrealFetcher;
use crate::heartbeat::{heartbeat_of, Heartbeat, KeepAlive, ReenqueueOrphaned};
use crate::poll::{poll_start, CompactPoll, PollAction, PollEvent, TaskPoll};
use crate::setup::{first_step, SetupStep, SCRIPT_PATH};
use crate::sink::{SurrealSink, Target};
use crate::task::Polled;
use crate::CompactType;
use apalis_core::backend::codec::json::JsonCodec;
use apalis_core::layers::Stack;
use apalis_core::worker::context::WorkerContext;
use apalis_core::worker::ext::ack::AcknowledgeLayer;
use core::fmt::Display;
use core::marker::PhantomData;
use std::sync::Arc;
use surrealdb::Error;
use vstd::prelude::*;

verus! {

/// Stores tasks of type `T`, encoded by the codec `C`, over a connection.
///
/// Clones of a storage share its connection.
pub struct SurrealStorage<
    T,
    C,
    Fetcher,
    Conn = surrealdb::Surreal<surrealdb::engine::any::Any>,
> {
    conn: Arc<Conn>,
    job_type: PhantomData<T>,
    codec: PhantomData<C>,
    config: Config,
    sink: SurrealSink<T, CompactType, C, Conn>,
    fetcher: Fetcher,
}

/// What is to be known of a storage: the queue that it reads, the queue that its
/// sink writes, and its fetcher.
pub struct StorageView<Fetcher, Conn> {
    pub target: Target<Conn>,
    pub sink: Target<Conn>,
    pub fetcher: Fetcher,
}

impl<Fetcher, Conn> StorageView<Fetcher, Conn> {
    /// Whether tasks are written to the queue that they are read from.
    pub open spec fn wf(self) -> bool {
        self.sink == self.target
    }

    /// The storage after a change of codec.
    pub open spec fn recoded(self) -> Self {
        StorageView { sink: self.target, ..self }
    }
}

/// A new storage for a queue.
pub open spec fn storage_on<Conn>(target: Target<Conn>) -> StorageView<SurrealFetcher, Conn> {
    StorageView { target, sink: target, fetcher: SurrealFetcher }
}

/// A value that is shown under a label.
pub struct Labelled<V> {
    pub label: &'static str,
    pub value: V,
}

/// What a storage shows of itself to a developer: a title, and below it the
/// connection, the type of the tasks, the name of the codec and the settings, in
/// this order.
pub struct StorageDebug<'a, T, Conn> {
    pub title: &'static str,
    pub fields: (
        Labelled<&'a Conn>,
        Labelled<PhantomData<T>>,
        Labelled<&'a str>,
        Labelled<&'a Config>,
    ),
}

impl<T, C, Fetcher, Conn> View for SurrealStorage<T, C, Fetcher, Conn> {
    type V = StorageView<Fetcher, Conn>;

    closed spec fn view(&self) -> StorageView<Fetcher, Conn> {
        StorageView {
            target: Target { conn: self.conn, config: self.config },
            sink: self.sink@,
            fetcher: self.fetcher,
        }
    }
}

impl<T, C, Fetcher: Clone, Conn> Clone for SurrealStorage<T, C, Fetcher, Conn> {
    fn clone(&self) -> (same: Self)
        ensures
            same@.target == self@.target,
            same@.sink == self@.sink,
            cloned(self@.fetcher, same@.fetcher),
            self@.wf() ==> same@.wf(),
    {
        SurrealStorage {
            conn: self.conn.clone(),
            job_type: PhantomData,
            codec: PhantomData,
            config: self.config.clone(),
            sink: self.sink.clone(),
            fetcher: self.fetcher.clone(),
        }
    }
}

impl SurrealStorage<(), (), (), ()> {
    /// Prepares the database: the first step towards it.
    pub fn setup() -> (step: SetupStep)
        ensures
            step == first_step(),
            step matches SetupStep::ReadScript { path } && path@ == "migrations/init_setup.surql"@,
    {
        SetupStep::ReadScript { path: SCRIPT_PATH }
    }
}

impl<T, Conn> SurrealStorage<T, (), (), Conn> {
    /// A storage whose queue bears the name `task_type`, once it is known whether
    /// the session of the queues was selected on the connection. The caller hands
    /// in the name of `T`; nothing here compares it with `T`.
    pub fn new(
        db: &Arc<Conn>,
        task_type: &str,
        selected: Result<(), Error>,
    ) -> (storage: Result<SurrealStorage<T, JsonCodec<CompactType>, SurrealFetcher, Conn>, Error>)
        ensures
            match selected {
                Ok(()) => storage matches Ok(new) && {
                    &&& new@ == storage_on(new@.target)
                    &&& new@.target.conn == *db
                    &&& new@.target.config.is_default_for(task_type@)
                    &&& call_ensures(Config::new, (task_type,), new@.target.config)
                },
                Err(error) => storage matches Err(same) && same == error,
            },
    {
        let config = apply(Config::new, task_type);
        Self::new_with_config(db, &config, selected)
    }

    /// A storage whose queue has this name, once it is known whether the session
    /// of the queues was selected on the connection.
    pub fn new_with_queue(
        db: &Arc<Conn>,
        queue: &str,
        selected: Result<(), Error>,
    ) -> (storage: Result<SurrealStorage<T, JsonCodec<CompactType>, SurrealFetcher, Conn>, Error>)
        ensures
            match selected {
                Ok(()) => storage matches Ok(new) && {
                    &&& new@ == storage_on(new@.target)
                    &&& new@.target.conn == *db
                    &&& new@.target.config.is_default_for(queue@)
                    &&& call_ensures(Config::new, (queue,), new@.target.config)
                },
                Err(error) => storage matches Err(same) && same == error,
            },
    {
        let config = apply(Config::new, queue);
        Self::new_with_config(db, &config, selected)
    }

    /// A storage whose queue has these settings, once it is known whether the
    /// session of the queues was selected on the connection.
    pub fn new_with_config(
        db: &Arc<Conn>,
        config: &Config,
        selected: Result<(), Error>,
    ) -> (storage: Result<SurrealStorage<T, JsonCodec<CompactType>, SurrealFetcher, Conn>, Error>)
        ensures
            match selected {
                Ok(()) => storage matches Ok(new) && new@ == storage_on(
                    Target { conn: *db, config: *config },
                ),
                Err(error) => storage matches Err(same) && same == error,
            },
    {
        match selected {
            Ok(()) => Ok(
                SurrealStorage {
                    conn: db.clone(),
                    job_type: PhantomData,
                    codec: PhantomData,
                    config: config.clone(),
                    sink: SurrealSink::new(db, config),
                    fetcher: SurrealFetcher,
                },
            ),
            Err(error) => Err(error),
        }
    }
}

impl<T, C, Fetcher, Conn> SurrealStorage<T, C, Fetcher, Conn> {
    /// The same storage with another codec.
    pub fn with_codec<D>(self) -> (recoded: SurrealStorage<T, D, Fetcher, Conn>)
        ensures
            recoded@ == self@.recoded(),
    {
        SurrealStorage {
            sink: SurrealSink::new(&self.conn, &self.config),
            conn: self.conn,
            job_type: PhantomData,
            codec: PhantomData,
            config: self.config,
            fetcher: self.fetcher,
        }
    }

    /// The settings of the queue.
    pub fn config(&self) -> (config: &Config)
        ensures
            *config == self@.target.config,
    {
        &self.config
    }

    /// The connection to the database.
    pub fn conn(&self) -> (conn: &Conn)
        ensures
            *conn == *self@.target.conn,
    {
        &self.conn
    }

    /// The sink for new tasks.
    pub fn sink(&self) -> (sink: &SurrealSink<T, CompactType, C, Conn>)
        ensures
            sink@ == self@.sink,
    {
        &self.sink
    }

    /// What the storage shows of itself to a developer, given the name of its
    /// codec. The sink and the fetcher are left out.
    pub fn fmt<'a>(&'a self, codec: &'a str) -> (shown: StorageDebug<'a, T, Conn>)
        ensures
            shown.title@ == "SurrealStorage"@,
            shown.fields.0.label@ == "conn"@,
            *shown.fields.0.value == *self@.target.conn,
            shown.fields.1.label@ == "job_type"@,
            shown.fields.1.value == PhantomData::<T>,
            shown.fields.2.label@ == "codec"@,
            shown.fields.2.value@ == codec@,
            shown.fields.3.label@ == "config"@,
            *shown.fields.3.value == self@.target.config,
    {
        StorageDebug {
            title: "SurrealStorage",
            fields: (
                Labelled { label: "conn", value: &self.conn },
                Labelled { label: "job_type", value: self.job_type },
                Labelled { label: "codec", value: codec },
                Labelled { label: "config", value: &self.config },
            ),
        }
    }

    /// The heartbeat of a worker.
    pub fn heartbeat(&self, worker: &WorkerContext) -> (heartbeat: Heartbeat<Conn>)
        ensures
            heartbeat == heartbeat_of(self@.target, *worker),
    {
        Heartbeat {
            keep_alive: KeepAlive {
                target: Target::new(&self.conn, &self.config),
                worker: worker.clone(),
            },
            reenqueue: ReenqueueOrphaned {
                target: Target::new(&self.conn, &self.config),
                every: self.config.keep_alive,
            },
        }
    }

    /// The layers round a task: it is locked on the inside, and acknowledged on
    /// the outside.
    pub fn middleware(&self) -> (layers: Stack<
        LockTaskLayer<Conn>,
        AcknowledgeLayer<SurrealAck<Conn>>,
    >)
        ensures
            lock_within_ack(self@.target.conn, layers),
    {
        let lock = LockTaskLayer::new(self.conn.clone());
        let ack = SurrealAck::new(self.conn.clone());
        let ack_layer = apply(AcknowledgeLayer::<SurrealAck<Conn>>::new, ack);
        assert(call_ensures(
            AcknowledgeLayer::<SurrealAck<Conn>>::new,
            (SurrealAck { conn: self@.target.conn },),
            ack_layer,
        ));
        apply_pair(
            Stack::<LockTaskLayer<Conn>, AcknowledgeLayer<SurrealAck<Conn>>>::new,
            lock,
            ack_layer,
        )
    }

    /// Polls the queue on behalf of a worker.
    fn poll_default(self, worker: &WorkerContext) -> (poll: CompactPoll<Conn>)
        ensures
            poll@ == poll_start(self@.target, *worker),
    {
        CompactPoll::new(Target { conn: self.conn, config: self.config }, worker)
    }

    /// Polls the queue for decoded tasks on behalf of a worker.
    pub fn poll(self, worker: &WorkerContext) -> (poll: TaskPoll<T, C, Conn>)
        ensures
            poll@ == poll_start(self@.target, *worker),
    {
        TaskPoll::new(self.poll_default(worker))
    }

    /// Polls the queue for encoded tasks on behalf of a worker.
    pub fn poll_compact(self, worker: &WorkerContext) -> (poll: CompactPoll<Conn>)
        ensures
            poll@ == poll_start(self@.target, *worker),
    {
        self.poll_default(worker)
    }
}

/// A new storage writes tasks to the queue that it reads them from.
pub proof fn law_new_storage_is_wf<Conn>(target: Target<Conn>)
    ensures
        storage_on(target).wf(),
{
}

/// A change of codec leaves the storage with the connection, the settings and the
/// fetcher that it had, and with a sink for its own queue; of a storage that has
/// such a sink it changes nothing, and a second change adds nothing.
pub proof fn law_codec_change_keeps_the_queue<Fetcher, Conn>(storage: StorageView<Fetcher, Conn>)
    ensures
        storage.recoded().target == storage.target,
        storage.recoded().fetcher == storage.fetcher,
        storage.recoded().wf(),
        storage.wf() ==> storage.recoded() == storage,
        storage.recoded().recoded() == storage.recoded(),
{
}

/// A change of codec changes neither the heartbeat of a worker nor what it
/// registers and fetches.
pub proof fn law_codec_change_keeps_the_requests<Fetcher, Conn>(
    storage: StorageView<Fetcher, Conn>,
    worker: WorkerContext,
)
    ensures
        heartbeat_of(storage.recoded().target, worker) == heartbeat_of(storage.target, worker),
        poll_start(storage.recoded().target, worker) == poll_start(storage.target, worker),
{
}

/// With the settings that a queue starts with, abandoned tasks are looked for
/// every 30 seconds.
pub proof fn law_default_queue_looks_for_orphans_every_half_minute<Conn>(
    target: Target<Conn>,
    queue: Seq<char>,
    worker: WorkerContext,
)
    requires
        target.config.is_default_for(queue),
    ensures
        heartbeat_of(target, worker).reenqueue.every@ == seconds(30),
{
}

/// Whether two attempts to open a storage come to the same: both fail, with the
/// same error, or both give a storage with the same connection, the same
/// settings and a sink for its own queue.
pub open spec fn open_alike<T, U, C, D, Conn>(
    one: Result<SurrealStorage<T, C, SurrealFetcher, Conn>, Error>,
    other: Result<SurrealStorage<U, D, SurrealFetcher, Conn>, Error>,
) -> bool {
    match (one, other) {
        (Ok(one), Ok(other)) => {
            &&& one@.target.conn == other@.target.conn
            &&& one@.target.config.agrees_with(other@.target.config)
            &&& one@.wf()
            &&& other@.wf()
        },
        (Err(one), Err(other)) => one == other,
        _ => false,
    }
}

/// On one connection, with one outcome of the selection, the three constructors
/// come to the same: a name handed in as that of the type of the tasks is a name
/// handed in for the queue, and either opens it with the default settings for the
/// name.
pub proof fn law_constructors_agree<T, Conn>(
    db: &Arc<Conn>,
    name: &str,
    config: Config,
    selected: Result<(), Error>,
    by_type: Result<SurrealStorage<T, JsonCodec<CompactType>, SurrealFetcher, Conn>, Error>,
    by_queue: Result<SurrealStorage<T, JsonCodec<CompactType>, SurrealFetcher, Conn>, Error>,
    by_config: Result<SurrealStorage<T, JsonCodec<CompactType>, SurrealFetcher, Conn>, Error>,
)
    requires
        call_ensures(SurrealStorage::<T, (), (), Conn>::new, (db, name, selected), by_type),
        call_ensures(
            SurrealStorage::<T, (), (), Conn>::new_with_queue,
            (db, name, selected),
            by_queue,
        ),
        call_ensures(Config::new, (name,), config),
        call_ensures(
            SurrealStorage::<T, (), (), Conn>::new_with_config,
            (db, &config, selected),
            by_config,
        ),
    ensures
        open_alike(by_type, by_queue),
        open_alike(by_queue, by_config),
        open_alike(by_type, by_config),
        by_type is Ok <==> selected is Ok,
{
}

/// The type of the tasks has no influence on a queue that is opened by name, nor
/// on any of its settings.
pub proof fn law_task_type_sets_nothing<T, U, Conn>(
    db: &Arc<Conn>,
    queue: &str,
    selected: Result<(), Error>,
    one: Result<SurrealStorage<T, JsonCodec<CompactType>, SurrealFetcher, Conn>, Error>,
    other: Result<SurrealStorage<U, JsonCodec<CompactType>, SurrealFetcher, Conn>, Error>,
)
    requires
        call_ensures(
            SurrealStorage::<T, (), (), Conn>::new_with_queue,
            (db, queue, selected),
            one,
        ),
        call_ensures(
            SurrealStorage::<U, (), (), Conn>::new_with_queue,
            (db, queue, selected),
            other,
        ),
    ensures
        open_alike(one, other),
{
}

/// Nor has the type of the tasks any influence on a queue that is opened with
/// given settings, whatever they are.
pub proof fn law_task_type_adds_nothing_to_the_settings<T, U, Conn>(
    db: &Arc<Conn>,
    config: &Config,
    selected: Result<(), Error>,
    one: Result<SurrealStorage<T, JsonCodec<CompactType>, SurrealFetcher, Conn>, Error>,
    other: Result<SurrealStorage<U, JsonCodec<CompactType>, SurrealFetcher, Conn>, Error>,
)
    requires
        call_ensures(
            SurrealStorage::<T, (), (), Conn>::new_with_config,
            (db, config, selected),
            one,
        ),
        call_ensures(
            SurrealStorage::<U, (), (), Conn>::new_with_config,
            (db, config, selected),
            other,
        ),
    ensures
        open_alike(one, other),
        one matches Ok(one) ==> one@.target.config == *config,
{
}

/// A storage opens if and only if its session was selected, and fails with the
/// error of the selection. It then has the connection and every one of the
/// settings that it was given, and its sink writes over that connection with
/// those settings.
pub proof fn law_storage_opens_as_it_is_told<T, Conn>(
    db: Arc<Conn>,
    given: Config,
    selected: Result<(), Error>,
    opened: Result<SurrealStorage<T, JsonCodec<CompactType>, SurrealFetcher, Conn>, Error>,
    conn: &Conn,
    config: &Config,
    sink: &SurrealSink<T, CompactType, JsonCodec<CompactType>, Conn>,
    written: &Target<Conn>,
)
    requires
        call_ensures(SurrealStorage::<T, (), (), Conn>::new_with_config, (&db, &given, selected), opened),
        opened matches Ok(storage) ==> {
            &&& call_ensures(SurrealStorage::<T, JsonCodec<CompactType>, SurrealFetcher, Conn>::conn, (&storage,), conn)
            &&& call_ensures(SurrealStorage::<T, JsonCodec<CompactType>, SurrealFetcher, Conn>::config, (&storage,), config)
            &&& call_ensures(SurrealStorage::<T, JsonCodec<CompactType>, SurrealFetcher, Conn>::sink, (&storage,), sink)
            &&& call_ensures(
                SurrealSink::<T, CompactType, JsonCodec<CompactType>, Conn>::target,
                (sink,),
                written,
            )
        },
    ensures
        opened is Ok <==> selected is Ok,
        selected matches Err(error) ==> opened matches Err(same) && same == error,
        opened is Ok ==> {
            &&& *conn == *db
            &&& *config == given
            &&& written.conn == db
            &&& written.config == given
        },
{
}

/// A storage that is opened by a name, be it that of its tasks or one of its own,
/// reads the queue of that name over the given connection, with the default
/// settings, and writes to it.
pub proof fn law_storage_opens_by_name<T, Conn>(
    db: Arc<Conn>,
    name: &str,
    selected: Result<(), Error>,
    opened: Result<SurrealStorage<T, JsonCodec<CompactType>, SurrealFetcher, Conn>, Error>,
    conn: &Conn,
    config: &Config,
    sink: &SurrealSink<T, CompactType, JsonCodec<CompactType>, Conn>,
    written: &Target<Conn>,
)
    requires
        call_ensures(SurrealStorage::<T, (), (), Conn>::new, (&db, name, selected), opened) || call_ensures(
            SurrealStorage::<T, (), (), Conn>::new_with_queue,
            (&db, name, selected),
            opened,
        ),
        opened matches Ok(storage) ==> {
            &&& call_ensures(SurrealStorage::<T, JsonCodec<CompactType>, SurrealFetcher, Conn>::conn, (&storage,), conn)
            &&& call_ensures(SurrealStorage::<T, JsonCodec<CompactType>, SurrealFetcher, Conn>::config, (&storage,), config)
            &&& call_ensures(SurrealStorage::<T, JsonCodec<CompactType>, SurrealFetcher, Conn>::sink, (&storage,), sink)
            &&& call_ensures(
                SurrealSink::<T, CompactType, JsonCodec<CompactType>, Conn>::target,
                (sink,),
                written,
            )
        },
    ensures
        opened is Ok <==> selected is Ok,
        selected matches Err(error) ==> opened matches Err(same) && same == error,
        opened is Ok ==> {
            &&& *conn == *db
            &&& config.queue@ == name@
            &&& config.keep_alive@ == 30 * 1_000_000_000
            &&& config.buffer_size == 10
            &&& config.reenqueue_orphaned_after@ == 300 * 1_000_000_000
            &&& config.ack
            &&& call_ensures(Config::new, (name,), *config)
            &&& written.conn == db
            &&& written.config == *config
        },
{
}

/// The heartbeat of a worker goes to the connection of the storage with all the
/// settings of the storage, both where the worker reports and where abandoned
/// tasks are taken back. It is the given worker that reports, and tasks are taken
/// back at the pace of its reports.
pub proof fn law_heartbeat_goes_by_the_settings_of_the_storage<T, C, Fetcher, Conn>(
    storage: SurrealStorage<T, C, Fetcher, Conn>,
    worker: WorkerContext,
    conn: &Conn,
    config: &Config,
    beat: Heartbeat<Conn>,
)
    requires
        call_ensures(SurrealStorage::<T, C, Fetcher, Conn>::conn, (&storage,), conn),
        call_ensures(SurrealStorage::<T, C, Fetcher, Conn>::config, (&storage,), config),
        call_ensures(SurrealStorage::<T, C, Fetcher, Conn>::heartbeat, (&storage, &worker), beat),
    ensures
        *beat.keep_alive.target.conn == *conn,
        beat.keep_alive.target.config == *config,
        beat.keep_alive.worker == worker,
        *beat.reenqueue.target.conn == *conn,
        beat.reenqueue.target.config == *config,
        beat.reenqueue.every == config.keep_alive,
{
}

/// A poll for encoded tasks first asks to register the given worker, over the
/// connection and with all the settings of the storage. However that turns out,
/// it hands on an idle item and then asks for tasks for that worker, over that
/// connection and with those settings.
pub proof fn law_compact_poll_goes_by_the_settings_of_the_storage<T, C, Fetcher, Conn>(
    storage: SurrealStorage<T, C, Fetcher, Conn>,
    worker: WorkerContext,
    conn: &Conn,
    config: &Config,
    poll: &mut CompactPoll<Conn>,
    first: PollAction<'_, Conn>,
    registered: Result<(), Error>,
    item: Option<Polled<CompactType>>,
    second: PollAction<'_, Conn>,
)
    requires
        call_ensures(SurrealStorage::<T, C, Fetcher, Conn>::conn, (&storage,), conn),
        call_ensures(SurrealStorage::<T, C, Fetcher, Conn>::config, (&storage,), config),
        call_ensures(SurrealStorage::<T, C, Fetcher, Conn>::poll_compact, (storage, &worker), *old(poll)),
        call_ensures(CompactPoll::<Conn>::action, (&*old(poll),), first),
        call_ensures(
            CompactPoll::<Conn>::advance,
            (poll, PollEvent::Registered(registered)),
            item,
        ),
        call_ensures(CompactPoll::<Conn>::action, (&*final(poll),), second),
    ensures
        first matches PollAction::Register(request) && {
            &&& *request.target.conn == *conn
            &&& request.target.config == *config
            &&& request.worker == worker
            &&& request.storage@ == "SurrealStorage"@
        },
        item == Some(Polled::<CompactType>::Ok(None)),
        second matches PollAction::Fetch(request) && {
            &&& *request.target.conn == *conn
            &&& request.target.config == *config
            &&& request.worker == worker
        },
{
}

/// A poll for decoded tasks makes the same requests in the same order, whatever
/// the decoder.
pub proof fn law_poll_goes_by_the_settings_of_the_storage<
    T,
    C,
    Fetcher,
    Conn,
    E: Display,
    F: Fn(&CompactType) -> Result<T, E>,
>(
    storage: SurrealStorage<T, C, Fetcher, Conn>,
    worker: WorkerContext,
    conn: &Conn,
    config: &Config,
    poll: &mut TaskPoll<T, C, Conn>,
    first: PollAction<'_, Conn>,
    registered: Result<(), Error>,
    decode: F,
    item: Option<Polled<T>>,
    second: PollAction<'_, Conn>,
)
    requires
        call_ensures(SurrealStorage::<T, C, Fetcher, Conn>::conn, (&storage,), conn),
        call_ensures(SurrealStorage::<T, C, Fetcher, Conn>::config, (&storage,), config),
        call_ensures(SurrealStorage::<T, C, Fetcher, Conn>::poll, (storage, &worker), *old(poll)),
        call_ensures(TaskPoll::<T, C, Conn>::action, (&*old(poll),), first),
        call_ensures(
            TaskPoll::<T, C, Conn>::advance::<E, F>,
            (poll, PollEvent::Registered(registered), &decode),
            item,
        ),
        call_ensures(TaskPoll::<T, C, Conn>::action, (&*final(poll),), second),
    ensures
        first matches PollAction::Register(request) && {
            &&& *request.target.conn == *conn
            &&& request.target.config == *config
            &&& request.worker == worker
            &&& request.storage@ == "SurrealStorage"@
        },
        item == Some(Polled::<T>::Ok(None)),
        second matches PollAction::Fetch(request) && {
            &&& *request.target.conn == *conn
            &&& request.target.config == *config
            &&& request.worker == worker
        },
{
}

/// A storage with another codec has the connection and every one of the settings
/// that it had, gives the heartbeat that it gave, and writes to its own queue.
pub proof fn law_codec_change_is_seen_in_nothing_else<T, C, D, Fetcher, Conn>(
    storage: SurrealStorage<T, C, Fetcher, Conn>,
    recoded: SurrealStorage<T, D, Fetcher, Conn>,
    worker: WorkerContext,
    conn: &Conn,
    conn_after: &Conn,
    config: &Config,
    config_after: &Config,
    beat: Heartbeat<Conn>,
    beat_after: Heartbeat<Conn>,
    sink: &SurrealSink<T, CompactType, D, Conn>,
    written: &Target<Conn>,
)
    requires
        call_ensures(SurrealStorage::<T, C, Fetcher, Conn>::with_codec::<D>, (storage,), recoded),
        call_ensures(SurrealStorage::<T, C, Fetcher, Conn>::conn, (&storage,), conn),
        call_ensures(SurrealStorage::<T, D, Fetcher, Conn>::conn, (&recoded,), conn_after),
        call_ensures(SurrealStorage::<T, C, Fetcher, Conn>::config, (&storage,), config),
        call_ensures(SurrealStorage::<T, D, Fetcher, Conn>::config, (&recoded,), config_after),
        call_ensures(SurrealStorage::<T, C, Fetcher, Conn>::heartbeat, (&storage, &worker), beat),
        call_ensures(
            SurrealStorage::<T, D, Fetcher, Conn>::heartbeat,
            (&recoded, &worker),
            beat_after,
        ),
        call_ensures(SurrealStorage::<T, D, Fetcher, Conn>::sink, (&recoded,), sink),
        call_ensures(SurrealSink::<T, CompactType, D, Conn>::target, (sink,), written),
    ensures
        *conn_after == *conn,
        *config_after == *config,
        beat_after == beat,
        *written.conn == *conn,
        written.config == *config,
        recoded@.fetcher == storage@.fetcher,
{
}

/// A copy of a storage has its connection and every one of its settings, and
/// writes where it writes.
pub proof fn law_copy_shares_connection_and_settings<T, C, Fetcher: Clone, Conn>(
    storage: SurrealStorage<T, C, Fetcher, Conn>,
    copy: SurrealStorage<T, C, Fetcher, Conn>,
    conn: &Conn,
    conn_of_copy: &Conn,
    config: &Config,
    config_of_copy: &Config,
    sink: &SurrealSink<T, CompactType, C, Conn>,
    sink_of_copy: &SurrealSink<T, CompactType, C, Conn>,
    written: &Target<Conn>,
    written_by_copy: &Target<Conn>,
)
    requires
        cloned(storage, copy),
        call_ensures(SurrealStorage::<T, C, Fetcher, Conn>::conn, (&storage,), conn),
        call_ensures(SurrealStorage::<T, C, Fetcher, Conn>::conn, (&copy,), conn_of_copy),
        call_ensures(SurrealStorage::<T, C, Fetcher, Conn>::config, (&storage,), config),
        call_ensures(SurrealStorage::<T, C, Fetcher, Conn>::config, (&copy,), config_of_copy),
        call_ensures(SurrealStorage::<T, C, Fetcher, Conn>::sink, (&storage,), sink),
        call_ensures(SurrealStorage::<T, C, Fetcher, Conn>::sink, (&copy,), sink_of_copy),
        call_ensures(SurrealSink::<T, CompactType, C, Conn>::target, (sink,), written),
        call_ensures(
            SurrealSink::<T, CompactType, C, Conn>::target,
            (sink_of_copy,),
            written_by_copy,
        ),
    ensures
        *conn_of_copy == *conn,
        *config_of_copy == *config,
        *written_by_copy == *written,
        cloned(storage@.fetcher, copy@.fetcher),
{
}

/// A developer is shown, under the name of the storage, its connection, the type
/// of its tasks, the codec that was named, and its settings, each under its label
/// and in this order.
pub proof fn law_storage_shows_what_it_has<T, C, Fetcher, Conn>(
    storage: SurrealStorage<T, C, Fetcher, Conn>,
    codec: &str,
    conn: &Conn,
    config: &Config,
    shown: StorageDebug<'_, T, Conn>,
)
    requires
        call_ensures(SurrealStorage::<T, C, Fetcher, Conn>::conn, (&storage,), conn),
        call_ensures(SurrealStorage::<T, C, Fetcher, Conn>::config, (&storage,), config),
        call_ensures(SurrealStorage::<T, C, Fetcher, Conn>::fmt, (&storage, codec), shown),
    ensures
        shown.title@ == "SurrealStorage"@,
        shown.fields.0.label@ == "conn"@,
        *shown.fields.0.value == *conn,
        shown.fields.1.label@ == "job_type"@,
        shown.fields.2.label@ == "codec"@,
        shown.fields.2.value@ == codec@,
        shown.fields.3.label@ == "config"@,
        *shown.fields.3.value == *config,
{
}

/// The layers round a task are a lock, on the inside, and an acknowledgement, on
/// the outside, and both work over the connection of the storage.
pub proof fn law_layers_work_over_the_connection_of_the_storage<T, C, Fetcher, Conn>(
    storage: SurrealStorage<T, C, Fetcher, Conn>,
    conn: &Conn,
    layers: Stack<LockTaskLayer<Conn>, AcknowledgeLayer<SurrealAck<Conn>>>,
)
    requires
        call_ensures(SurrealStorage::<T, C, Fetcher, Conn>::conn, (&storage,), conn),
        call_ensures(SurrealStorage::<T, C, Fetcher, Conn>::middleware, (&storage,), layers),
    ensures
        exists|lock: LockTaskLayer<Conn>, ack: SurrealAck<Conn>, outer: AcknowledgeLayer<SurrealAck<Conn>>|
            {
                &&& *lock.conn == *conn
                &&& *ack.conn == *conn
                &&& #[trigger] call_ensures(
                    AcknowledgeLayer::<SurrealAck<Conn>>::new,
                    (ack,),
                    outer,
                )
                &&& #[trigger] call_ensures(
                    Stack::<LockTaskLayer<Conn>, AcknowledgeLayer<SurrealAck<Conn>>>::new,
                    (lock, outer),
                    layers,
                )
            },
{
    let shared = storage@.target.conn;
    let outer = choose|outer: AcknowledgeLayer<SurrealAck<Conn>>|
        {
            &&& #[trigger] call_ensures(
                AcknowledgeLayer::<SurrealAck<Conn>>::new,
                (SurrealAck { conn: shared },),
                outer,
            )
            &&& call_ensures(
                Stack::<LockTaskLayer<Conn>, AcknowledgeLayer<SurrealAck<Conn>>>::new,
                (LockTaskLayer { conn: shared }, outer),
                layers,
            )
        };
    let lock = LockTaskLayer { conn: shared };
    let ack = SurrealAck { conn: shared };
    assert(call_ensures(AcknowledgeLayer::<SurrealAck<Conn>>::new, (ack,), outer));
    assert(call_ensures(
        Stack::<LockTaskLayer<Conn>, AcknowledgeLayer<SurrealAck<Conn>>>::new,
        (lock, outer),
        layers,
    ));
}

/// The preparation of the database begins with the file of the schema script.
pub proof fn law_setup_begins_with_the_script(step: SetupStep)
    requires
        call_ensures(SurrealStorage::<(), (), (), ()>::setup, (), step),
    ensures
        step matches SetupStep::ReadScript { path } && path@ == "migrations/init_setup.surql"@,
{
}

/// A new storage has its sink, and a changed codec has its sink, on the very queue
/// that is read; neither touches the queue.
pub proof fn law_sinks_are_on_the_queue_that_is_read<Fetcher, Conn>(
    target: Target<Conn>,
    storage: StorageView<Fetcher, Conn>,
)
    ensures
        storage_on(target).target == target,
        storage_on(target).sink == target,
        storage.recoded().target == storage.target,
        storage.recoded().sink == storage.target,
        storage.wf() <==> storage.sink == storage.target,
{
}

/// Calls a function, and keeps that the result is one of this call.
fn apply<A, R, F: FnOnce(A) -> R>(f: F, a: A) -> (r: R)
    requires
        f.requires((a,)),
    ensures
        f.ensures((a,), r),
{
    f(a)
}

/// Calls a function of two arguments, and keeps that the result is one of this
/// call.
fn apply_pair<A, B, R, F: FnOnce(A, B) -> R>(f: F, a: A, b: B) -> (r: R)
    requires
        f.requires((a, b)),
    ensures
        f.ensures((a, b), r),
{
    f(a, b)
}

} // verus!
