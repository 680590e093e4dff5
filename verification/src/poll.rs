//! How a worker polls the queue: it registers itself, then fetches tasks until
//! there are no more.
use crate::fetcher::FetchRequest;
use crate::foreign::thrown_error;
use crate::sink::Target;
use crate::task::{decode_item, decodes_to, Polled};
use crate::CompactType;
use apalis_core::worker::context::WorkerContext;
use core::fmt::Display;
use core::marker::PhantomData;
use surrealdb::Error;
use vstd::prelude::*;
use vstd::string::to_string_from_display_ensures;

verus! {

/// Announces a worker to the database.
pub struct Registration<Conn> {
    pub target: Target<Conn>,
    pub worker: WorkerContext,
    /// The name of the storage, which is recorded with the worker.
    pub storage: &'static str,
}

/// How far a poll has come.
#[derive(Debug, Clone, Copy, PartialEq, Eq, Structural)]
pub enum Phase {
    /// The worker is not registered yet.
    Registering,
    /// The worker is fetching tasks.
    Fetching,
    /// There are no more tasks to come.
    Ended,
}

/// What a poll needs next.
pub enum PollAction<'a, Conn> {
    /// Register the worker.
    Register(&'a Registration<Conn>),
    /// Fetch the next item.
    Fetch(&'a FetchRequest<Conn>),
    /// Nothing: the poll has ended.
    Stop,
}

/// How an action turned out.
pub enum PollEvent {
    /// The worker was registered, or could not be.
    Registered(Result<(), Error>),
    /// The next item was fetched, or there is none.
    Fetched(Option<Polled<CompactType>>),
}

impl PollEvent {
    /// Whether a poll in this phase has asked for this.
    pub open spec fn answers(self, phase: Phase) -> bool {
        match self {
            PollEvent::Registered(_) => phase == Phase::Registering,
            PollEvent::Fetched(_) => phase == Phase::Fetching,
        }
    }

    /// The item that the poll hands on: an idle poll for a registration,
    /// whether or not it worked, and each fetched item as it is.
    pub open spec fn item(self) -> Option<Polled<CompactType>> {
        match self {
            PollEvent::Registered(_) => Some(Ok(None)),
            PollEvent::Fetched(item) => item,
        }
    }

    /// Whether a poll with this decoder may hand this on: what a poll without one
    /// hands on, decoded.
    pub open spec fn gives<Args, E: Display, F: Fn(&CompactType) -> Result<Args, E>>(
        self,
        decode: F,
        out: Option<Polled<Args>>,
    ) -> bool {
        match self.item() {
            None => out is None,
            Some(item) => out matches Some(out) && decodes_to(decode, item, out),
        }
    }

    /// The phase that follows.
    pub open spec fn next_phase(self) -> Phase {
        match self {
            PollEvent::Registered(_) => Phase::Fetching,
            PollEvent::Fetched(Some(_)) => Phase::Fetching,
            PollEvent::Fetched(None) => Phase::Ended,
        }
    }
}

/// The name under which the storage registers workers.
pub const STORAGE_NAME: &'static str = "SurrealStorage";

/// What is to be known of a poll: its two requests, and how far it has come.
pub struct PollState<Conn> {
    pub registration: Registration<Conn>,
    pub fetch: FetchRequest<Conn>,
    pub phase: Phase,
}

/// A poll of this queue by this worker, before anything has happened.
pub open spec fn poll_start<Conn>(target: Target<Conn>, worker: WorkerContext) -> PollState<Conn> {
    PollState {
        registration: Registration { target, worker, storage: STORAGE_NAME },
        fetch: FetchRequest { target, worker },
        phase: Phase::Registering,
    }
}

impl<Conn> PollState<Conn> {
    /// What the poll needs next.
    pub open spec fn action(&self) -> PollAction<'_, Conn> {
        match self.phase {
            Phase::Registering => PollAction::Register(&self.registration),
            Phase::Fetching => PollAction::Fetch(&self.fetch),
            Phase::Ended => PollAction::Stop,
        }
    }

    /// The poll after this event.
    pub open spec fn after(self, event: PollEvent) -> Self {
        PollState { phase: event.next_phase(), ..self }
    }
}

/// A poll of the queue that hands on encoded tasks.
pub struct CompactPoll<Conn> {
    state: PollState<Conn>,
}

impl<Conn> View for CompactPoll<Conn> {
    type V = PollState<Conn>;

    closed spec fn view(&self) -> PollState<Conn> {
        self.state
    }
}

impl<Conn> CompactPoll<Conn> {
    /// A poll of this queue by this worker.
    pub fn new(target: Target<Conn>, worker: &WorkerContext) -> (poll: Self)
        ensures
            poll@ == poll_start(target, *worker),
    {
        let registration = Registration {
            target: target.clone(),
            worker: worker.clone(),
            storage: STORAGE_NAME,
        };
        let fetch = FetchRequest { target, worker: worker.clone() };
        CompactPoll { state: PollState { registration, fetch, phase: Phase::Registering } }
    }

    /// What the poll needs next.
    pub fn action(&self) -> (action: PollAction<'_, Conn>)
        ensures
            action == self@.action(),
    {
        match self.state.phase {
            Phase::Registering => PollAction::Register(&self.state.registration),
            Phase::Fetching => PollAction::Fetch(&self.state.fetch),
            Phase::Ended => PollAction::Stop,
        }
    }

    /// Takes how the action turned out, and gives the item to hand on, or `None`
    /// at the end.
    pub fn advance(&mut self, event: PollEvent) -> (item: Option<Polled<CompactType>>)
        requires
            event.answers(old(self)@.phase),
        ensures
            item == event.item(),
            final(self)@ == old(self)@.after(event),
    {
        match event {
            PollEvent::Registered(_) => {
                self.state.phase = Phase::Fetching;
                Some(Ok(None))
            },
            PollEvent::Fetched(Some(item)) => Some(item),
            PollEvent::Fetched(None) => {
                self.state.phase = Phase::Ended;
                None
            },
        }
    }
}

/// A poll of the queue that hands on tasks with arguments of type `Args`, as the
/// codec `Decode` reads them.
pub struct TaskPoll<Args, Decode, Conn> {
    compact: CompactPoll<Conn>,
    args: PhantomData<Args>,
    codec: PhantomData<Decode>,
}

impl<Args, Decode, Conn> View for TaskPoll<Args, Decode, Conn> {
    type V = PollState<Conn>;

    closed spec fn view(&self) -> PollState<Conn> {
        self.compact@
    }
}

impl<Args, Decode, Conn> TaskPoll<Args, Decode, Conn> {
    /// Decodes what a poll hands on.
    pub fn new(compact: CompactPoll<Conn>) -> (poll: Self)
        ensures
            poll@ == compact@,
    {
        TaskPoll { compact, args: PhantomData, codec: PhantomData }
    }

    /// What the poll needs next.
    pub fn action(&self) -> (action: PollAction<'_, Conn>)
        ensures
            action == self@.action(),
    {
        self.compact.action()
    }

    /// Takes how the action turned out, and gives the item to hand on, with its
    /// arguments decoded, or `None` at the end.
    pub fn advance<E: Display, F: Fn(&CompactType) -> Result<Args, E>>(
        &mut self,
        event: PollEvent,
        decode: &F,
    ) -> (item: Option<Polled<Args>>)
        requires
            event.answers(old(self)@.phase),
            event.item() matches Some(Ok(Some(task))) ==> decode.requires((&task.args,)),
        ensures
            event.gives(*decode, item),
            final(self)@ == old(self)@.after(event),
    {
        match self.compact.advance(event) {
            None => None,
            Some(fetched) => Some(decode_item(fetched, decode)),
        }
    }
}

/// What a poll hands on when it takes these events in turn, from this phase, as
/// long as they answer what it asks for.
pub open spec fn items_of(phase: Phase, events: Seq<PollEvent>) -> Seq<Polled<CompactType>>
    decreases events.len(),
{
    if events.len() == 0 || !events[0].answers(phase) {
        seq![]
    } else {
        let rest = items_of(events[0].next_phase(), events.drop_first());
        match events[0].item() {
            Some(item) => seq![item] + rest,
            None => rest,
        }
    }
}

/// The events in which these items are fetched in turn.
pub open spec fn fetches(items: Seq<Polled<CompactType>>) -> Seq<PollEvent> {
    items.map_values(|item: Polled<CompactType>| PollEvent::Fetched(Some(item)))
}

proof fn lemma_fetched_items_are_handed_on(items: Seq<Polled<CompactType>>, rest: Seq<PollEvent>)
    ensures
        items_of(Phase::Fetching, fetches(items) + rest) == items + items_of(Phase::Fetching, rest),
    decreases items.len(),
{
    let events = fetches(items) + rest;
    if items.len() == 0 {
        assert(events =~= rest);
        assert(items + items_of(Phase::Fetching, rest) =~= items_of(Phase::Fetching, rest));
    } else {
        lemma_fetched_items_are_handed_on(items.drop_first(), rest);
        assert(events.drop_first() =~= fetches(items.drop_first()) + rest);
        assert(seq![items[0]] + (items.drop_first() + items_of(Phase::Fetching, rest)) =~= items
            + items_of(Phase::Fetching, rest));
    }
}

/// However the registration turns out, a poll hands on one idle item, then every
/// fetched item, each once, as it is and in the order in which they were
/// fetched, and nothing else.
pub proof fn law_poll_is_idle_once_then_hands_on_what_is_fetched(
    registered: Result<(), Error>,
    items: Seq<Polled<CompactType>>,
)
    ensures
        items_of(Phase::Registering, seq![PollEvent::Registered(registered)] + fetches(items))
            == seq![Polled::<CompactType>::Ok(None)] + items,
{
    let first = PollEvent::Registered(registered);
    let events = seq![first] + fetches(items);
    let rest = Seq::<PollEvent>::empty();
    lemma_fetched_items_are_handed_on(items, rest);
    assert(fetches(items) + rest =~= fetches(items));
    assert(items + items_of(Phase::Fetching, rest) =~= items);
    assert(events.drop_first() =~= fetches(items));
}

/// Whether a poll with this decoder may hand on these items when it takes these
/// events in turn, from this phase, as long as they answer what it asks for.
pub open spec fn may_hand_on<Args, E: Display, F: Fn(&CompactType) -> Result<Args, E>>(
    decode: F,
    phase: Phase,
    events: Seq<PollEvent>,
    outs: Seq<Polled<Args>>,
) -> bool
    decreases events.len(),
{
    if events.len() == 0 || !events[0].answers(phase) {
        outs.len() == 0
    } else if events[0].gives(decode, None::<Polled<Args>>) {
        may_hand_on(decode, events[0].next_phase(), events.drop_first(), outs)
    } else {
        &&& outs.len() > 0
        &&& events[0].gives(decode, Some(outs[0]))
        &&& may_hand_on(decode, events[0].next_phase(), events.drop_first(), outs.drop_first())
    }
}

/// Whether these are, one for one and in order, what `items` decode to.
pub open spec fn decode_in_step<Args, E: Display, F: Fn(&CompactType) -> Result<Args, E>>(
    decode: F,
    items: Seq<Polled<CompactType>>,
    outs: Seq<Polled<Args>>,
) -> bool {
    &&& outs.len() == items.len()
    &&& forall|i: int| 0 <= i < items.len() ==> decodes_to(decode, #[trigger] items[i], outs[i])
}

/// Whatever its events, a poll with a decoder hands on, one for one and in order,
/// what the items decode to that a poll without one hands on.
pub proof fn law_decoding_poll_keeps_step<
    Args,
    E: Display,
    F: Fn(&CompactType) -> Result<Args, E>,
>(decode: F, phase: Phase, events: Seq<PollEvent>, outs: Seq<Polled<Args>>)
    requires
        may_hand_on(decode, phase, events, outs),
    ensures
        decode_in_step(decode, items_of(phase, events), outs),
    decreases events.len(),
{
    let items = items_of(phase, events);
    if events.len() > 0 && events[0].answers(phase) {
        let rest = items_of(events[0].next_phase(), events.drop_first());
        match events[0].item() {
            None => {
                law_decoding_poll_keeps_step(
                    decode,
                    events[0].next_phase(),
                    events.drop_first(),
                    outs,
                );
            },
            Some(item) => {
                let later = outs.drop_first();
                law_decoding_poll_keeps_step(
                    decode,
                    events[0].next_phase(),
                    events.drop_first(),
                    later,
                );
                assert(items =~= seq![item] + rest);
                assert forall|i: int| 0 <= i < items.len() implies decodes_to(
                    decode,
                    #[trigger] items[i],
                    outs[i],
                ) by {
                    if i > 0 {
                        assert(items[i] == rest[i - 1]);
                        assert(outs[i] == later[i - 1]);
                    }
                }
            },
        }
    }
}

/// A poll with a decoder hands on one idle item too, however the registration
/// turns out, and then each fetched item, decoded, once and in order: an item
/// that does not decode takes its own place and no other.
pub proof fn law_decoding_poll_is_idle_once_then_decodes_what_is_fetched<
    Args,
    E: Display,
    F: Fn(&CompactType) -> Result<Args, E>,
>(
    decode: F,
    registered: Result<(), Error>,
    items: Seq<Polled<CompactType>>,
    outs: Seq<Polled<Args>>,
)
    requires
        may_hand_on(
            decode,
            Phase::Registering,
            seq![PollEvent::Registered(registered)] + fetches(items),
            outs,
        ),
    ensures
        outs.len() == items.len() + 1,
        outs[0] == Polled::<Args>::Ok(None),
        decode_in_step(decode, items, outs.drop_first()),
{
    let events = seq![PollEvent::Registered(registered)] + fetches(items);
    law_decoding_poll_keeps_step(decode, Phase::Registering, events, outs);
    law_poll_is_idle_once_then_hands_on_what_is_fetched(registered, items);
    let all = seq![Polled::<CompactType>::Ok(None)] + items;
    assert(all[0] == Polled::<CompactType>::Ok(None));
    assert forall|i: int| 0 <= i < items.len() implies decodes_to(
        decode,
        #[trigger] items[i],
        outs.drop_first()[i],
    ) by {
        assert(all[i + 1] == items[i]);
    }
}

/// When a fetch finds that there is nothing more to come, the poll ends: it has
/// handed on what was fetched until then, and hands on nothing after, whatever
/// events follow.
pub proof fn law_poll_ends_with_the_fetches(
    items: Seq<Polled<CompactType>>,
    later: Seq<PollEvent>,
)
    ensures
        items_of(Phase::Fetching, fetches(items) + (seq![PollEvent::Fetched(None)] + later))
            == items,
{
    let rest = seq![PollEvent::Fetched(None)] + later;
    lemma_fetched_items_are_handed_on(items, rest);
    assert(items_of(Phase::Ended, rest.drop_first()) =~= Seq::<Polled<CompactType>>::empty());
    assert(items_of(Phase::Fetching, rest) =~= Seq::<Polled<CompactType>>::empty());
    assert(items + items_of(Phase::Fetching, rest) =~= items);
}

/// Nothing is fetched before the registration has been attempted, and nothing
/// after the end.
pub proof fn law_fetching_follows_registration(event: PollEvent)
    ensures
        event.answers(Phase::Registering) ==> event is Registered && event.next_phase()
            == Phase::Fetching,
        event is Fetched ==> !event.answers(Phase::Registering),
        !event.answers(Phase::Ended),
{
}

/// What a poll asks for is settled by how far it has come, and by nothing else: it
/// asks to register with its registration, then for tasks with its fetch request,
/// and it asks for nothing once it has ended.
pub proof fn law_poll_asks_by_its_phase_alone<Conn>(
    poll: CompactPoll<Conn>,
    asked: PollAction<'_, Conn>,
)
    requires
        call_ensures(CompactPoll::<Conn>::action, (&poll,), asked),
    ensures
        asked is Register <==> poll@.phase is Registering,
        asked is Fetch <==> poll@.phase is Fetching,
        asked is Stop <==> poll@.phase is Ended,
        asked matches PollAction::Register(request) ==> *request == poll@.registration,
        asked matches PollAction::Fetch(request) ==> *request == poll@.fetch,
{
}

/// The same holds of what the state of a poll says that it asks for.
pub proof fn law_state_asks_by_its_phase_alone<Conn>(state: PollState<Conn>)
    ensures
        state.action() is Register <==> state.phase is Registering,
        state.action() is Fetch <==> state.phase is Fetching,
        state.action() is Stop <==> state.phase is Ended,
        state.action() matches PollAction::Register(request) ==> *request == state.registration,
        state.action() matches PollAction::Fetch(request) ==> *request == state.fetch,
{
}

/// A poll takes how the thing that it asked for turned out, whichever way that
/// was, and nothing else.
pub proof fn law_poll_takes_what_it_asked_for<Conn>(
    poll: &mut CompactPoll<Conn>,
    asked: PollAction<'_, Conn>,
    event: PollEvent,
)
    requires
        call_ensures(CompactPoll::<Conn>::action, (&*old(poll),), asked),
    ensures
        asked is Register && event is Registered ==> call_requires(
            CompactPoll::<Conn>::advance,
            (poll, event),
        ),
        asked is Fetch && event is Fetched ==> call_requires(
            CompactPoll::<Conn>::advance,
            (poll, event),
        ),
        event.answers(old(poll)@.phase) <==> {
            ||| asked is Register && event is Registered
            ||| asked is Fetch && event is Fetched
        },
{
}

/// A new poll asks to register its worker, under the name of the storage, on the
/// connection and with the settings that it was given.
pub proof fn law_new_poll_asks_to_register<Conn>(
    target: Target<Conn>,
    worker: WorkerContext,
    poll: CompactPoll<Conn>,
    asked: PollAction<'_, Conn>,
)
    requires
        call_ensures(CompactPoll::<Conn>::new, (target, &worker), poll),
        call_ensures(CompactPoll::<Conn>::action, (&poll,), asked),
    ensures
        asked matches PollAction::Register(request) && {
            &&& request.target == target
            &&& request.worker == worker
            &&& request.storage@ == "SurrealStorage"@
        },
{
}

/// However the registration of a new poll turns out, the poll hands on an idle
/// item and then asks for tasks, on behalf of its worker, on the connection and
/// with all the settings that it was given.
pub proof fn law_registered_poll_asks_for_tasks<Conn>(
    target: Target<Conn>,
    worker: WorkerContext,
    poll: &mut CompactPoll<Conn>,
    registered: Result<(), Error>,
    item: Option<Polled<CompactType>>,
    asked: PollAction<'_, Conn>,
)
    requires
        call_ensures(CompactPoll::<Conn>::new, (target, &worker), *old(poll)),
        call_ensures(
            CompactPoll::<Conn>::advance,
            (poll, PollEvent::Registered(registered)),
            item,
        ),
        call_ensures(CompactPoll::<Conn>::action, (&*final(poll),), asked),
    ensures
        item == Some(Polled::<CompactType>::Ok(None)),
        asked matches PollAction::Fetch(request) && {
            &&& request.target == target
            &&& request.worker == worker
        },
{
}

/// A poll that asks for tasks hands on each item that was fetched as it is, be it
/// a task, an idle poll or an error, and asks for the next with the same request.
pub proof fn law_poll_goes_on_after_every_item<Conn>(
    poll: &mut CompactPoll<Conn>,
    asked: PollAction<'_, Conn>,
    fetched: Polled<CompactType>,
    item: Option<Polled<CompactType>>,
    next: PollAction<'_, Conn>,
)
    requires
        call_ensures(CompactPoll::<Conn>::action, (&*old(poll),), asked),
        asked is Fetch,
        call_ensures(
            CompactPoll::<Conn>::advance,
            (poll, PollEvent::Fetched(Some(fetched))),
            item,
        ),
        call_ensures(CompactPoll::<Conn>::action, (&*final(poll),), next),
    ensures
        item == Some(fetched),
        next == asked,
{
}

/// A poll hands on nothing and stops asking when the fetches are over, and only
/// then: after any event it asks for nothing if and only if there was no item.
pub proof fn law_poll_stops_only_at_the_end_of_the_fetches<Conn>(
    poll: &mut CompactPoll<Conn>,
    event: PollEvent,
    item: Option<Polled<CompactType>>,
    next: PollAction<'_, Conn>,
)
    requires
        call_ensures(CompactPoll::<Conn>::advance, (poll, event), item),
        call_ensures(CompactPoll::<Conn>::action, (&*final(poll),), next),
    ensures
        next is Stop <==> event == PollEvent::Fetched(None),
        item is None <==> event == PollEvent::Fetched(None),
        next is Stop || next is Fetch,
        next matches PollAction::Fetch(request) ==> *request == old(poll)@.fetch,
{
}

/// No event changes the requests of a poll, and the phase that it leads to is
/// the one that sequences of events go by.
pub proof fn law_events_change_the_phase_alone<Conn>(state: PollState<Conn>, event: PollEvent)
    ensures
        state.after(event).registration == state.registration,
        state.after(event).fetch == state.fetch,
        state.after(event).phase == event.next_phase(),
        event.next_phase() is Ended <==> event == PollEvent::Fetched(None),
        event.next_phase() is Ended || event.next_phase() is Fetching,
{
}

/// The requests with which a poll starts carry the worker, the connection and all
/// the settings, and the worker is registered under the name of the storage.
pub proof fn law_poll_requests_carry_worker_and_settings<Conn>(
    target: Target<Conn>,
    worker: WorkerContext,
)
    ensures
        poll_start(target, worker).registration.target == target,
        poll_start(target, worker).registration.worker == worker,
        poll_start(target, worker).registration.storage@ == "SurrealStorage"@,
        poll_start(target, worker).fetch.target == target,
        poll_start(target, worker).fetch.worker == worker,
        poll_start(target, worker).phase is Registering,
{
}

/// A poll that has taken these events in turn.
pub open spec fn after_all<Conn>(state: PollState<Conn>, events: Seq<PollEvent>) -> PollState<Conn>
    decreases events.len(),
{
    if events.len() == 0 {
        state
    } else {
        after_all(state, events.drop_last()).after(events.last())
    }
}

/// However the registration turns out, and however many items were fetched,
/// tasks, idle polls and errors alike, a poll asks for the next with the request
/// that it started with; only the end of the fetches makes it stop.
pub proof fn law_poll_fetches_until_the_end<Conn>(
    target: Target<Conn>,
    worker: WorkerContext,
    registered: Result<(), Error>,
    items: Seq<Polled<CompactType>>,
)
    ensures
        ({
            let events = seq![PollEvent::Registered(registered)] + fetches(items);
            let start = poll_start(target, worker);
            &&& after_all(start, events).action() == PollAction::Fetch(
                &FetchRequest { target, worker },
            )
            &&& after_all(start, events.push(PollEvent::Fetched(None))).action()
                == PollAction::<Conn>::Stop
        }),
    decreases items.len(),
{
    let first = seq![PollEvent::Registered(registered)];
    let events = first + fetches(items);
    let start = poll_start(target, worker);
    if items.len() == 0 {
        assert(events =~= first);
        assert(first.drop_last() =~= Seq::<PollEvent>::empty());
        assert(after_all(start, first.drop_last()) == start);
    } else {
        law_poll_fetches_until_the_end(target, worker, registered, items.drop_last());
        assert(events.drop_last() =~= first + fetches(items.drop_last()));
        assert(events.last() == PollEvent::Fetched(Some(items.last())));
    }
    assert(events.push(PollEvent::Fetched(None)).drop_last() =~= events);
}

/// A poll with a decoder asks for what the poll asks for that it decodes.
pub proof fn law_decoding_poll_asks_as_the_poll_it_decodes<Args, Decode, Conn>(
    compact: CompactPoll<Conn>,
    poll: TaskPoll<Args, Decode, Conn>,
    compact_asked: PollAction<'_, Conn>,
    asked: PollAction<'_, Conn>,
)
    requires
        call_ensures(TaskPoll::<Args, Decode, Conn>::new, (compact,), poll),
        call_ensures(CompactPoll::<Conn>::action, (&compact,), compact_asked),
        call_ensures(TaskPoll::<Args, Decode, Conn>::action, (&poll,), asked),
    ensures
        asked == compact_asked,
{
}

/// What a poll with a decoder asks for is settled by its phase alone, too.
pub proof fn law_decoding_poll_asks_by_its_phase_alone<Args, Decode, Conn>(
    poll: TaskPoll<Args, Decode, Conn>,
    asked: PollAction<'_, Conn>,
)
    requires
        call_ensures(TaskPoll::<Args, Decode, Conn>::action, (&poll,), asked),
    ensures
        asked is Register <==> poll@.phase is Registering,
        asked is Fetch <==> poll@.phase is Fetching,
        asked is Stop <==> poll@.phase is Ended,
        asked matches PollAction::Register(request) ==> *request == poll@.registration,
        asked matches PollAction::Fetch(request) ==> *request == poll@.fetch,
{
}

/// A poll with a decoder takes how the thing that it asked for turned out,
/// whichever way that was, as long as the decoder takes the arguments of the
/// task that was fetched.
pub proof fn law_decoding_poll_takes_what_it_asked_for<
    Args,
    Decode,
    Conn,
    E: Display,
    F: Fn(&CompactType) -> Result<Args, E>,
>(
    poll: &mut TaskPoll<Args, Decode, Conn>,
    asked: PollAction<'_, Conn>,
    event: PollEvent,
    decode: F,
)
    requires
        call_ensures(TaskPoll::<Args, Decode, Conn>::action, (&*old(poll),), asked),
        event matches PollEvent::Fetched(Some(Ok(Some(task)))) ==> decode.requires((&task.args,)),
    ensures
        asked is Register && event is Registered ==> call_requires(
            TaskPoll::<Args, Decode, Conn>::advance::<E, F>,
            (poll, event, &decode),
        ),
        asked is Fetch && event is Fetched ==> call_requires(
            TaskPoll::<Args, Decode, Conn>::advance::<E, F>,
            (poll, event, &decode),
        ),
{
}

/// However the registration turns out, a poll with a decoder hands on an idle
/// item, and then asks for tasks with its fetch request.
pub proof fn law_decoding_poll_is_idle_at_registration<
    Args,
    Decode,
    Conn,
    E: Display,
    F: Fn(&CompactType) -> Result<Args, E>,
>(
    poll: &mut TaskPoll<Args, Decode, Conn>,
    registered: Result<(), Error>,
    decode: F,
    item: Option<Polled<Args>>,
    next: PollAction<'_, Conn>,
)
    requires
        call_ensures(
            TaskPoll::<Args, Decode, Conn>::advance::<E, F>,
            (poll, PollEvent::Registered(registered), &decode),
            item,
        ),
        call_ensures(TaskPoll::<Args, Decode, Conn>::action, (&*final(poll),), next),
    ensures
        item == Some(Polled::<Args>::Ok(None)),
        next matches PollAction::Fetch(request) && *request == old(poll)@.fetch,
{
}

/// A poll with a decoder hands on an idle poll and an error as they are. A task
/// goes with the arguments that the decoder read and with all its other parts, or,
/// if the decoder failed, as an error with the text of the decoder's. After each
/// of these the poll asks for the next item with the same request.
pub proof fn law_decoding_poll_goes_on_after_every_item<
    Args,
    Decode,
    Conn,
    E: Display,
    F: Fn(&CompactType) -> Result<Args, E>,
>(
    poll: &mut TaskPoll<Args, Decode, Conn>,
    asked: PollAction<'_, Conn>,
    fetched: Polled<CompactType>,
    decode: F,
    item: Option<Polled<Args>>,
    next: PollAction<'_, Conn>,
)
    requires
        call_ensures(TaskPoll::<Args, Decode, Conn>::action, (&*old(poll),), asked),
        asked is Fetch,
        call_ensures(
            TaskPoll::<Args, Decode, Conn>::advance::<E, F>,
            (poll, PollEvent::Fetched(Some(fetched)), &decode),
            item,
        ),
        call_ensures(TaskPoll::<Args, Decode, Conn>::action, (&*final(poll),), next),
    ensures
        next == asked,
        fetched matches Err(error) ==> item == Some(Polled::<Args>::Err(error)),
        fetched matches Ok(None) ==> item == Some(Polled::<Args>::Ok(None)),
        fetched matches Ok(Some(task)) ==> item matches Some(out) && match out {
            Ok(Some(decoded)) => {
                &&& decode.ensures((&task.args,), Ok(decoded.args))
                &&& decoded.parts == task.parts
            },
            Ok(None) => false,
            Err(error) => exists|cause: E, text: String|
                {
                    &&& #[trigger] decode.ensures((&task.args,), Err(cause))
                    &&& #[trigger] to_string_from_display_ensures::<E>(&cause, text)
                    &&& error == thrown_error(text@)
                },
        },
{
}

/// A poll with a decoder hands on nothing and stops asking when the fetches are
/// over, and only then.
pub proof fn law_decoding_poll_stops_only_at_the_end_of_the_fetches<
    Args,
    Decode,
    Conn,
    E: Display,
    F: Fn(&CompactType) -> Result<Args, E>,
>(
    poll: &mut TaskPoll<Args, Decode, Conn>,
    event: PollEvent,
    decode: F,
    item: Option<Polled<Args>>,
    next: PollAction<'_, Conn>,
)
    requires
        call_ensures(
            TaskPoll::<Args, Decode, Conn>::advance::<E, F>,
            (poll, event, &decode),
            item,
        ),
        call_ensures(TaskPoll::<Args, Decode, Conn>::action, (&*final(poll),), next),
    ensures
        next is Stop <==> event == PollEvent::Fetched(None),
        item is None <==> event == PollEvent::Fetched(None),
        next is Stop || next is Fetch,
        next matches PollAction::Fetch(request) ==> *request == old(poll)@.fetch,
{
}

} // verus!
