//! The in-process event bus: handlers subscribed by topic, and a broadcast
//! fan-out to listeners, each with a bounded buffer of its own.
//!
//! The bus is a plain value. Sharing it between tasks is the caller's business;
//! every operation here runs to its end without waiting for anything.

use vstd::prelude::*;
use vstd::string::*;
use crate::json::{clone_value, json_model, Json};
use crate::stamp::{fresh_id, is_clock_time, now_millis, ID_LENGTH};
use crate::text::text_eq;

verus! {

/// What a listener can have pending before the oldest event is dropped.
pub const BROADCAST_CAPACITY: usize = 100;

/// Something that happened, published under a topic.
#[derive(Debug, PartialEq)]
pub struct Event {
    pub id: String,
    /// The topic.
    pub name: String,
    pub payload: serde_json::Value,
    /// Milliseconds since the Unix epoch.
    pub timestamp: u64,
    /// Where the event came from, such as `frontend` or `backend`.
    pub source: String,
}

pub struct EventView {
    pub id: Seq<char>,
    pub name: Seq<char>,
    pub payload: Json,
    pub timestamp: u64,
    pub source: Seq<char>,
}

impl View for Event {
    type V = EventView;

    open spec fn view(&self) -> EventView {
        EventView {
            id: self.id@,
            name: self.name@,
            payload: json_model(self.payload),
            timestamp: self.timestamp,
            source: self.source@,
        }
    }
}

impl Clone for Event {
    fn clone(&self) -> (copy: Self)
        ensures
            copy@ == self@,
    {
        Event {
            id: self.id.clone(),
            name: self.name.clone(),
            payload: clone_value(&self.payload),
            timestamp: self.timestamp,
            source: self.source.clone(),
        }
    }
}

impl Event {
    /// An event with a fresh identifier, stamped with the current time.
    pub fn new(name: String, payload: serde_json::Value, source: String) -> (event: Self)
        ensures
            event@.name == name@,
            event@.payload == json_model(payload),
            event@.source == source@,
            event@.id.len() == ID_LENGTH,
            is_clock_time(event@.timestamp),
    {
        Event::stamped(fresh_id(), name, payload, now_millis(), source)
    }

    /// An event of the given identifier and time.
    pub fn stamped(id: String, name: String, payload: serde_json::Value, timestamp: u64, source: String) -> (event: Self)
        ensures
            event@ == (EventView { id: id@, name: name@, payload: json_model(payload), timestamp, source: source@ }),
    {
        Event { id, name, payload, timestamp, source }
    }
}

/// What receives the events of a topic.
pub trait EventHandler {
    /// Handles one event. An error is reported to the emitter and goes no
    /// further.
    fn handle(&self, event: &Event) -> Result<(), String>;
}

/// One handler, subscribed under one topic.
pub struct Registration<H> {
    topic: String,
    handler: H,
}

/// The buffer of one listener.
pub struct Listener {
    active: bool,
    pending: Vec<Event>,
    lost: u64,
}

pub struct ListenerView {
    pub active: bool,
    pub pending: Seq<EventView>,
    /// How many events the listener lost to a full buffer since it last asked.
    pub lost: u64,
}

/// The view of each event of a sequence.
pub open spec fn event_views(events: Seq<Event>) -> Seq<EventView> {
    events.map_values(|e: Event| e@)
}

impl View for Listener {
    type V = ListenerView;

    closed spec fn view(&self) -> ListenerView {
        ListenerView { active: self.active, pending: event_views(self.pending@), lost: self.lost }
    }
}

/// A count of lost events after one more: it stays at its largest value once
/// there.
pub open spec fn one_more_lost(lost: u64) -> u64 {
    if lost == u64::MAX {
        lost
    } else {
        (lost + 1) as u64
    }
}

/// A buffer after one more event: at capacity the oldest event gives way.
pub open spec fn enqueue(pending: Seq<EventView>, event: EventView) -> Seq<EventView> {
    if pending.len() >= BROADCAST_CAPACITY {
        pending.drop_first().push(event)
    } else {
        pending.push(event)
    }
}

impl ListenerView {
    /// The listener after an emission: an active one has the event at the end
    /// of its buffer, and has lost one more event where the buffer was full; a
    /// cancelled one is untouched.
    pub open spec fn offered(self, event: EventView) -> ListenerView {
        if self.active {
            ListenerView {
                active: true,
                pending: enqueue(self.pending, event),
                lost: if self.pending.len() >= BROADCAST_CAPACITY {
                    one_more_lost(self.lost)
                } else {
                    self.lost
                },
            }
        } else {
            self
        }
    }
}

/// The positions, among the first `upto` topics, of those equal to `name`.
pub open spec fn matching(topics: Seq<Seq<char>>, name: Seq<char>, upto: int) -> Seq<usize>
    decreases upto,
{
    if upto <= 0 {
        Seq::empty()
    } else if topics[upto - 1] == name {
        matching(topics, name, upto - 1).push((upto - 1) as usize)
    } else {
        matching(topics, name, upto - 1)
    }
}

pub struct EventBusView {
    /// The topic of each subscription, in the order of subscription.
    pub topics: Seq<Seq<char>>,
    pub listeners: Seq<ListenerView>,
}

impl EventBusView {
    /// The subscriptions that an event of topic `name` reaches, in the order in
    /// which they were made.
    pub open spec fn handlers_for(self, name: Seq<char>) -> Seq<usize> {
        matching(self.topics, name, self.topics.len() as int)
    }

    /// The bus with one more subscription.
    pub open spec fn subscribed(self, topic: Seq<char>) -> EventBusView {
        EventBusView { topics: self.topics.push(topic), ..self }
    }

    /// The bus after an emission.
    pub open spec fn delivered(self, event: EventView) -> EventBusView {
        EventBusView {
            listeners: self.listeners.map_values(|l: ListenerView| l.offered(event)),
            ..self
        }
    }

    /// The bus after a sequence of emissions.
    pub open spec fn delivered_all(self, events: Seq<EventView>) -> EventBusView
        decreases events.len(),
    {
        if events.len() == 0 {
            self
        } else {
            self.delivered_all(events.drop_last()).delivered(events.last())
        }
    }

    /// Whether `id` names a listener that has not been cancelled.
    pub open spec fn is_listening(self, id: int) -> bool {
        0 <= id < self.listeners.len() && self.listeners[id].active
    }

    /// The first slot that no listener holds, or the number of slots.
    pub open spec fn free_slot(self, from: int) -> int
        decreases self.listeners.len() - from,
    {
        if 0 <= from < self.listeners.len() {
            if self.listeners[from].active {
                self.free_slot(from + 1)
            } else {
                from
            }
        } else {
            self.listeners.len() as int
        }
    }

    /// The bus with a new listener in slot `id`, its buffer empty.
    pub open spec fn listening(self, id: int) -> EventBusView {
        let fresh = ListenerView { active: true, pending: Seq::empty(), lost: 0 };
        if id < self.listeners.len() {
            EventBusView { listeners: self.listeners.update(id, fresh), ..self }
        } else {
            EventBusView { listeners: self.listeners.push(fresh), ..self }
        }
    }

    /// The bus with listener `id` cancelled and its buffer emptied.
    pub open spec fn cancelled(self, id: int) -> EventBusView {
        if 0 <= id < self.listeners.len() {
            EventBusView {
                listeners: self.listeners.update(
                    id,
                    ListenerView { active: false, pending: Seq::empty(), lost: 0 },
                ),
                ..self
            }
        } else {
            self
        }
    }

    /// The bus after listener `id` took the oldest pending event.
    pub open spec fn received(self, id: int) -> EventBusView {
        if self.is_listening(id) && self.listeners[id].pending.len() > 0 {
            EventBusView {
                listeners: self.listeners.update(
                    id,
                    ListenerView { pending: self.listeners[id].pending.drop_first(), ..self.listeners[id] },
                ),
                ..self
            }
        } else {
            self
        }
    }

    /// How many events listener `id` has lost since it last asked.
    pub open spec fn lost_by(self, id: int) -> u64 {
        if self.is_listening(id) {
            self.listeners[id].lost
        } else {
            0
        }
    }

    /// The bus after listener `id` was told of its loss: the count starts anew.
    pub open spec fn noticed(self, id: int) -> EventBusView {
        if self.is_listening(id) {
            EventBusView {
                listeners: self.listeners.update(id, ListenerView { lost: 0, ..self.listeners[id] }),
                ..self
            }
        } else {
            self
        }
    }

    /// The oldest event pending for listener `id`.
    pub open spec fn next_for(self, id: int) -> Option<EventView> {
        if self.is_listening(id) && self.listeners[id].pending.len() > 0 {
            Some(self.listeners[id].pending.first())
        } else {
            None
        }
    }
}

proof fn lemma_views_push(events: Seq<Event>, event: Event)
    ensures
        event_views(events.push(event)) == event_views(events).push(event@),
{
    assert(event_views(events.push(event)) =~= event_views(events).push(event@));
}

/// The events of `events` from position `from` on.
fn copy_from(events: &Vec<Event>, from: usize) -> (tail: Vec<Event>)
    requires
        from <= events@.len(),
    ensures
        event_views(tail@) == event_views(events@).subrange(from as int, events@.len() as int),
{
    let mut tail: Vec<Event> = Vec::new();
    let mut k: usize = from;
    while k < events.len()
        invariant
            from <= k <= events@.len(),
            event_views(tail@) == event_views(events@).subrange(from as int, k as int),
        decreases events@.len() - k,
    {
        let ghost before = tail@;
        let copy = events[k].clone();
        tail.push(copy);
        proof {
            lemma_views_push(before, copy);
            assert(event_views(events@)[k as int] == events@[k as int]@);
            assert(event_views(tail@) =~= event_views(events@).subrange(from as int, k + 1));
        }
        k = k + 1;
    }
    tail
}

/// A handler that failed on an emission.
#[derive(Debug, PartialEq)]
pub struct HandlerFailure {
    /// The position of the subscription, in the order of subscription.
    pub position: usize,
    pub message: String,
}

/// What an emission did.
#[derive(Debug, PartialEq)]
pub struct EmitReport {
    /// The subscriptions whose handler was invoked, in the order of invocation.
    pub invoked: Vec<usize>,
    /// The handlers among them that returned an error.
    pub failures: Vec<HandlerFailure>,
}

/// The bus.
pub struct EventBus<H> {
    registrations: Vec<Registration<H>>,
    listeners: Vec<Listener>,
}

impl<H> View for EventBus<H> {
    type V = EventBusView;

    closed spec fn view(&self) -> EventBusView {
        EventBusView {
            topics: self.registrations@.map_values(|r: Registration<H>| r.topic@),
            listeners: self.listeners@.map_values(|l: Listener| l@),
        }
    }
}

/// Whether `outcome` is what `handler` returned for `event`.
pub open spec fn returned<H: EventHandler>(handler: H, event: Event, outcome: Result<(), String>) -> bool {
    call_ensures(H::handle, (&handler, &event), outcome)
}

/// Whether a failure is reported of the subscription at `position`.
pub open spec fn is_blamed(failures: Seq<HandlerFailure>, position: usize) -> bool {
    exists|k: int| 0 <= k < failures.len() && (#[trigger] failures[k]).position == position
}

impl<H: EventHandler> EventBus<H> {
    /// The handler of each subscription, in the order of subscription.
    pub closed spec fn handlers(&self) -> Seq<H> {
        self.registrations@.map_values(|r: Registration<H>| r.handler)
    }

    /// Whether `report` tells what an emission of `event` on this bus did: the
    /// subscriptions to the event's name were invoked, each with its own
    /// handler, in the order of subscription; every failure reported is what
    /// the handler of that subscription returned, and the failures are in the
    /// order of invocation; every other handler invoked returned `Ok`.
    pub open spec fn reported(&self, event: Event, report: EmitReport) -> bool {
        &&& self.handlers().len() == self@.topics.len()
        &&& report.invoked@ == self@.handlers_for(event@.name)
        &&& forall|k: int|
            0 <= k < report.invoked@.len() ==> (#[trigger] report.invoked@[k]) < self.handlers().len()
        &&& forall|k: int|
            0 <= k < report.failures@.len() ==> {
                &&& report.invoked@.contains((#[trigger] report.failures@[k]).position)
                &&& returned(
                    self.handlers()[report.failures@[k].position as int],
                    event,
                    Err(report.failures@[k].message),
                )
            }
        &&& forall|i: int, j: int|
            0 <= i < j < report.failures@.len() ==> (#[trigger] report.failures@[i]).position < (
            #[trigger] report.failures@[j]).position
        &&& forall|k: int|
            0 <= k < report.invoked@.len() && !is_blamed(report.failures@, #[trigger] report.invoked@[k])
                ==> returned(self.handlers()[report.invoked@[k] as int], event, Ok(()))
    }

    /// A bus without subscriptions and without listeners.
    pub fn new() -> (bus: Self)
        ensures
            bus@.topics.len() == 0,
            bus@.listeners.len() == 0,
            bus.handlers().len() == 0,
    {
        EventBus { registrations: Vec::new(), listeners: Vec::new() }
    }

    /// Subscribes `handler` to the events named `event_name`. A topic takes any
    /// number of handlers, the same one more than once too; they are invoked in
    /// the order in which they were subscribed.
    pub fn subscribe(&mut self, event_name: &str, handler: H) -> (r: Result<(), String>)
        ensures
            r is Ok,
            final(self)@ == old(self)@.subscribed(event_name@),
            final(self).handlers() == old(self).handlers().push(handler),
    {
        self.registrations.push(Registration { topic: event_name.to_owned(), handler });
        assert(self@.topics =~= old(self)@.topics.push(event_name@));
        assert(self@.listeners =~= old(self)@.listeners);
        assert(self.handlers() =~= old(self).handlers().push(handler));
        Ok(())
    }

    /// The same as [`EventBus::subscribe`].
    pub fn register_event_handler(&mut self, event_name: &str, handler: H) -> (r: Result<(), String>)
        ensures
            r is Ok,
            final(self)@ == old(self)@.subscribed(event_name@),
            final(self).handlers() == old(self).handlers().push(handler),
    {
        self.subscribe(event_name, handler)
    }

    /// Publishes an event. Every handler subscribed to its name is invoked, in
    /// the order of subscription, whatever the handlers before it returned; the
    /// handlers that returned an error are reported in that order, each with
    /// what it returned. Then every listener gets the event at the end of its
    /// buffer, a full buffer giving up its oldest event. Emitting never fails,
    /// and changes no subscription.
    pub fn emit(&mut self, event: Event) -> (r: Result<EmitReport, String>)
        ensures
            r matches Ok(report) && old(self).reported(event, report),
            final(self)@ == old(self)@.delivered(event@),
            final(self).handlers() == old(self).handlers(),
    {
        let mut invoked: Vec<usize> = Vec::new();
        let mut failures: Vec<HandlerFailure> = Vec::new();
        let count = self.registrations.len();
        let mut i: usize = 0;
        while i < count
            invariant
                i <= count,
                count == self.registrations@.len(),
                *self == *old(self),
                invoked@ == matching(self@.topics, event@.name, i as int),
                forall|k: int| 0 <= k < invoked@.len() ==> (#[trigger] invoked@[k]) < i,
                forall|k: int|
                    0 <= k < failures@.len() ==> {
                        &&& (#[trigger] failures@[k]).position < i
                        &&& invoked@.contains(failures@[k].position)
                        &&& returned(
                            self.handlers()[failures@[k].position as int],
                            event,
                            Err(failures@[k].message),
                        )
                    },
                forall|a: int, b: int|
                    0 <= a < b < failures@.len() ==> (#[trigger] failures@[a]).position < (
                    #[trigger] failures@[b]).position,
                forall|k: int|
                    0 <= k < invoked@.len() && !is_blamed(failures@, #[trigger] invoked@[k]) ==> returned(
                        self.handlers()[invoked@[k] as int],
                        event,
                        Ok(()),
                    ),
            decreases count - i,
        {
            let ghost before = invoked@;
            let ghost blamed = failures@;
            if text_eq(self.registrations[i].topic.as_str(), event.name.as_str()) {
                let outcome = self.registrations[i].handler.handle(&event);
                assert(self.handlers()[i as int] == self.registrations@[i as int].handler);
                assert(returned(self.handlers()[i as int], event, outcome));
                let ghost answer = outcome;
                invoked.push(i);
                match outcome {
                    Ok(()) => {},
                    Err(message) => {
                        failures.push(HandlerFailure { position: i, message });
                    },
                }
                proof {
                    assert forall|k: int| 0 <= k < failures@.len() implies invoked@.contains(
                        (#[trigger] failures@[k]).position,
                    ) by {
                        let p = failures@[k].position;
                        if k < blamed.len() {
                            assert(failures@[k] == blamed[k]);
                            let at = choose|at: int| 0 <= at < before.len() && before[at] == p;
                            assert(invoked@[at] == p);
                        } else {
                            assert(invoked@[invoked@.len() - 1] == i);
                        }
                    }
                    assert forall|k: int|
                        0 <= k < invoked@.len() && !is_blamed(failures@, #[trigger] invoked@[k]) implies returned(
                        self.handlers()[invoked@[k] as int],
                        event,
                        Ok(()),
                    ) by {
                        if k < before.len() {
                            assert(invoked@[k] == before[k]);
                            if is_blamed(blamed, before[k]) {
                                let j = choose|j: int| 0 <= j < blamed.len() && blamed[j].position == before[k];
                                assert(failures@[j] == blamed[j]);
                                assert(is_blamed(failures@, invoked@[k]));
                            } else {
                                assert(returned(self.handlers()[before[k] as int], event, Ok(())));
                            }
                        } else {
                            assert(invoked@[k] == i);
                            if answer is Err {
                                assert(failures@[failures@.len() - 1].position == i);
                                assert(is_blamed(failures@, i));
                            } else {
                                assert(answer->Ok_0 == ());
                                assert(answer == Ok::<(), String>(()));
                                assert(returned(self.handlers()[i as int], event, Ok(())));
                            }
                        }
                    }
                }
            }
            i = i + 1;
        }
        let ghost handlers = self.handlers();
        let report = EmitReport { invoked, failures };
        assert(self.handlers().len() == self@.topics.len());
        assert(old(self).reported(event, report));
        self.offer(&event);
        Ok(report)
    }

    /// Publishes an event of the given name and payload, from the backend, with
    /// a fresh identifier, as of now.
    pub fn emit_simple(&mut self, name: &str, payload: serde_json::Value) -> (r: Result<EmitReport, String>)
        ensures
            r matches Ok(report) && exists|event: Event|
                {
                    &&& event@.name == name@
                    &&& event@.payload == json_model(payload)
                    &&& event@.source == "backend"@
                    &&& event@.id.len() == ID_LENGTH
                    &&& is_clock_time(event@.timestamp)
                    &&& #[trigger] old(self).reported(event, report)
                    &&& final(self)@ == old(self)@.delivered(event@)
                },
            final(self).handlers() == old(self).handlers(),
    {
        let event = Event::new(name.to_owned(), payload, "backend".to_owned());
        let r = self.emit(event);
        proof {
            let report = r->Ok_0;
            assert(old(self).reported(event, report));
        }
        r
    }

    fn offer(&mut self, event: &Event)
        ensures
            final(self)@ == old(self)@.delivered(event@),
            final(self).handlers() == old(self).handlers(),
    {
        let count = self.listeners.len();
        let mut j: usize = 0;
        while j < count
            invariant
                j <= count,
                count == self.listeners@.len(),
                count == old(self).listeners@.len(),
                self.registrations == old(self).registrations,
                forall|k: int| 0 <= k < j ==> (#[trigger] self.listeners@[k])@ == old(self).listeners@[k]@.offered(event@),
                forall|k: int| j <= k < count ==> #[trigger] self.listeners@[k] == old(self).listeners@[k],
            decreases count - j,
        {
            if self.listeners[j].active {
                let ghost before = self.listeners@[j as int]@.pending;
                let held = self.listeners[j].pending.len();
                let skip: usize = if held >= BROADCAST_CAPACITY { 1 } else { 0 };
                let lost = if held >= BROADCAST_CAPACITY {
                    let lost = self.listeners[j].lost;
                    if lost == u64::MAX { lost } else { lost + 1 }
                } else {
                    self.listeners[j].lost
                };
                let mut pending = copy_from(&self.listeners[j].pending, skip);
                let ghost kept = pending@;
                let copy = event.clone();
                pending.push(copy);
                proof {
                    lemma_views_push(kept, copy);
                    assert(event_views(pending@) =~= enqueue(before, event@));
                }
                self.listeners.set(j, Listener { active: true, pending, lost });
            }
            j = j + 1;
        }
        assert(self@.listeners =~= old(self)@.delivered(event@).listeners);
        assert(self@.topics =~= old(self)@.topics);
    }

    /// Opens a new listener and returns its number. It receives every event
    /// emitted from now on, in the order of emission, and nothing from before.
    /// The number of a cancelled listener may be given out again.
    pub fn listen(&mut self) -> (id: usize)
        ensures
            id == old(self)@.free_slot(0),
            !old(self)@.is_listening(id as int),
            final(self)@ == old(self)@.listening(id as int),
            final(self)@.is_listening(id as int),
            final(self)@.listeners[id as int].pending.len() == 0,
            final(self)@.lost_by(id as int) == 0,
            final(self).handlers() == old(self).handlers(),
    {
        let count = self.listeners.len();
        let mut id: usize = 0;
        while id < count && self.listeners[id].active
            invariant
                id <= count,
                count == self.listeners@.len(),
                *self == *old(self),
                self@.free_slot(0) == self@.free_slot(id as int),
            decreases count - id,
        {
            id = id + 1;
        }
        let fresh = Listener { active: true, pending: Vec::new(), lost: 0 };
        assert(fresh@.pending =~= Seq::empty());
        if id < count {
            self.listeners.set(id, fresh);
            assert(self@.listeners =~= old(self)@.listening(id as int).listeners);
        } else {
            self.listeners.push(fresh);
            assert(self@.listeners =~= old(self)@.listening(id as int).listeners);
        }
        assert(self@.topics =~= old(self)@.topics);
        id
    }

    /// Takes the oldest event pending for listener `id`, if there is one.
    pub fn receive(&mut self, id: usize) -> (r: Option<Event>)
        ensures
            match r {
                Some(event) => old(self)@.next_for(id as int) == Some(event@),
                None => old(self)@.next_for(id as int).is_none(),
            },
            final(self)@ == old(self)@.received(id as int),
            final(self).handlers() == old(self).handlers(),
    {
        if id < self.listeners.len() && self.listeners[id].active && self.listeners[id].pending.len() > 0 {
            let ghost before = self.listeners@[id as int]@.pending;
            let pending = copy_from(&self.listeners[id].pending, 1);
            let first = self.listeners[id].pending[0].clone();
            assert(event_views(pending@) =~= before.drop_first());
            let lost = self.listeners[id].lost;
            self.listeners.set(id, Listener { active: true, pending, lost });
            assert(self@.listeners =~= old(self)@.received(id as int).listeners);
            assert(self@.topics =~= old(self)@.topics);
            Some(first)
        } else {
            None
        }
    }

    /// Tells listener `id` how many events it has lost to a full buffer since it
    /// last asked, and starts the count anew. The events lost are the oldest
    /// that were pending; a count at its largest value may stand for more.
    pub fn take_lost(&mut self, id: usize) -> (lost: u64)
        ensures
            lost == old(self)@.lost_by(id as int),
            final(self)@ == old(self)@.noticed(id as int),
            final(self).handlers() == old(self).handlers(),
    {
        if id < self.listeners.len() && self.listeners[id].active {
            let lost = self.listeners[id].lost;
            let pending = copy_from(&self.listeners[id].pending, 0);
            assert(event_views(pending@) =~= self.listeners@[id as int]@.pending);
            self.listeners.set(id, Listener { active: true, pending, lost: 0 });
            assert(self@.listeners =~= old(self)@.noticed(id as int).listeners);
            assert(self@.topics =~= old(self)@.topics);
            lost
        } else {
            0
        }
    }

    /// How many events are pending for listener `id`.
    pub fn pending_count(&self, id: usize) -> (count: usize)
        ensures
            count == if self@.is_listening(id as int) {
                self@.listeners[id as int].pending.len()
            } else {
                0
            },
    {
        if id < self.listeners.len() && self.listeners[id].active {
            self.listeners[id].pending.len()
        } else {
            0
        }
    }

    /// Cancels listener `id`: it receives nothing more, and what it had pending
    /// is dropped.
    pub fn unlisten(&mut self, id: usize)
        ensures
            final(self)@ == old(self)@.cancelled(id as int),
            final(self).handlers() == old(self).handlers(),
    {
        if id < self.listeners.len() {
            let closed = Listener { active: false, pending: Vec::new(), lost: 0 };
            assert(closed@.pending =~= Seq::empty());
            self.listeners.set(id, closed);
            assert(self@.listeners =~= old(self)@.cancelled(id as int).listeners);
            assert(self@.topics =~= old(self)@.topics);
        }
    }

    /// The number of subscriptions.
    pub fn subscription_count(&self) -> (count: usize)
        ensures
            count == self@.topics.len(),
    {
        self.registrations.len()
    }
}

/// The events that the application itself publishes.
#[derive(Debug, Clone, Copy, PartialEq, Eq, Structural)]
pub enum AppEventType {
    UserLogin,
    UserLogout,
    DataChanged,
    CounterIncremented,
    DatabaseOperation,
    SystemHealthCheck,
    FrontendConnected,
    FrontendDisconnected,
}

impl AppEventType {
    /// The topic of the event.
    pub open spec fn topic(self) -> Seq<char> {
        match self {
            AppEventType::UserLogin => "user.login"@,
            AppEventType::UserLogout => "user.logout"@,
            AppEventType::DataChanged => "data.changed"@,
            AppEventType::CounterIncremented => "counter.incremented"@,
            AppEventType::DatabaseOperation => "database.operation"@,
            AppEventType::SystemHealthCheck => "system.health.check"@,
            AppEventType::FrontendConnected => "frontend.connected"@,
            AppEventType::FrontendDisconnected => "frontend.disconnected"@,
        }
    }

    /// The topic of the event.
    pub fn to_string(&self) -> (text: String)
        ensures
            text@ == self.topic(),
    {
        match self {
            AppEventType::UserLogin => "user.login".to_owned(),
            AppEventType::UserLogout => "user.logout".to_owned(),
            AppEventType::DataChanged => "data.changed".to_owned(),
            AppEventType::CounterIncremented => "counter.incremented".to_owned(),
            AppEventType::DatabaseOperation => "database.operation".to_owned(),
            AppEventType::SystemHealthCheck => "system.health.check".to_owned(),
            AppEventType::FrontendConnected => "frontend.connected".to_owned(),
            AppEventType::FrontendDisconnected => "frontend.disconnected".to_owned(),
        }
    }
}

/// What turns an event into another before it is handled.
pub trait EventTransform {
    /// The event that `event` becomes, or why it is held back.
    fn apply(&self, event: &Event) -> Result<Event, String>;
}

/// A named step through which events pass.
pub struct EventMiddleware<T> {
    pub name: String,
    pub handler: T,
}

impl<T: EventTransform> EventMiddleware<T> {
    /// The step `name`, which applies `handler`.
    pub fn new(name: String, handler: T) -> (middleware: Self)
        ensures
            middleware.name == name,
            middleware.handler == handler,
    {
        EventMiddleware { name, handler }
    }
}

/// Emitting on a bus without subscriptions and without listeners reaches no
/// handler and leaves the bus as it was.
pub proof fn lemma_emit_on_empty_bus(bus: EventBusView, event: EventView)
    requires
        bus.topics.len() == 0,
        bus.listeners.len() == 0,
    ensures
        bus.handlers_for(event.name).len() == 0,
        bus.delivered(event) == bus,
{
    assert(bus.delivered(event).listeners =~= bus.listeners);
}

/// Emissions neither open nor cancel a listener, and touch no subscription.
pub proof fn lemma_emissions_keep_listeners(bus: EventBusView, events: Seq<EventView>)
    ensures
        bus.delivered_all(events).topics == bus.topics,
        bus.delivered_all(events).listeners.len() == bus.listeners.len(),
        forall|id: int| bus.delivered_all(events).is_listening(id) == bus.is_listening(id),
    decreases events.len(),
{
    if events.len() > 0 {
        lemma_emissions_keep_listeners(bus, events.drop_last());
    }
}

/// Two listeners whose buffers agree still agree after any sequence of
/// emissions: all listeners observe the same events in the same order.
pub proof fn lemma_listeners_agree(bus: EventBusView, a: int, b: int, events: Seq<EventView>)
    requires
        bus.is_listening(a),
        bus.is_listening(b),
        bus.listeners[a].pending == bus.listeners[b].pending,
    ensures
        bus.delivered_all(events).is_listening(a),
        bus.delivered_all(events).is_listening(b),
        bus.delivered_all(events).listeners[a].pending == bus.delivered_all(events).listeners[b].pending,
    decreases events.len(),
{
    lemma_emissions_keep_listeners(bus, events);
    if events.len() > 0 {
        lemma_emissions_keep_listeners(bus, events.drop_last());
        lemma_listeners_agree(bus, a, b, events.drop_last());
    }
}

/// A listener that does not lag past the capacity of its buffer has pending
/// exactly what was emitted, in the order of emission, after what it had.
pub proof fn lemma_listener_observes_in_order(bus: EventBusView, id: int, events: Seq<EventView>)
    requires
        bus.is_listening(id),
        bus.listeners[id].pending.len() + events.len() <= BROADCAST_CAPACITY,
    ensures
        bus.delivered_all(events).is_listening(id),
        bus.delivered_all(events).listeners[id].pending == bus.listeners[id].pending + events,
        bus.delivered_all(events).listeners[id].lost == bus.listeners[id].lost,
    decreases events.len(),
{
    lemma_emissions_keep_listeners(bus, events);
    if events.len() > 0 {
        let before = events.drop_last();
        lemma_emissions_keep_listeners(bus, before);
        lemma_listener_observes_in_order(bus, id, before);
        assert(bus.listeners[id].pending + events =~= (bus.listeners[id].pending + before).push(events.last()));
    } else {
        assert(bus.listeners[id].pending + events =~= bus.listeners[id].pending);
    }
}

/// How many of `count` events a buffer cannot hold.
pub open spec fn overflow(count: nat) -> nat {
    if count > BROADCAST_CAPACITY {
        (count - BROADCAST_CAPACITY) as nat
    } else {
        0
    }
}

/// A listener that lags loses the oldest events and no others. After any
/// emissions it has pending the newest of what it had and what was emitted, as
/// many as its buffer holds, in the order of emission; and its count of lost
/// events has grown by the number of the others, as far as the count goes.
pub proof fn lemma_lagging_listener_keeps_the_newest(bus: EventBusView, id: int, events: Seq<EventView>)
    requires
        bus.is_listening(id),
        bus.listeners[id].pending.len() <= BROADCAST_CAPACITY,
    ensures
        bus.delivered_all(events).is_listening(id),
        bus.delivered_all(events).listeners[id].pending == (bus.listeners[id].pending + events).skip(
            overflow((bus.listeners[id].pending + events).len()) as int,
        ),
        bus.listeners[id].lost + overflow((bus.listeners[id].pending + events).len()) <= u64::MAX
            ==> bus.delivered_all(events).listeners[id].lost == bus.listeners[id].lost + overflow(
            (bus.listeners[id].pending + events).len(),
        ),
    decreases events.len(),
{
    lemma_emissions_keep_listeners(bus, events);
    let had = bus.listeners[id].pending;
    let all = had + events;
    if events.len() > 0 {
        let before = events.drop_last();
        let earlier = had + before;
        lemma_emissions_keep_listeners(bus, before);
        lemma_lagging_listener_keeps_the_newest(bus, id, before);
        assert(all =~= earlier.push(events.last()));
        let held = bus.delivered_all(before).listeners[id].pending;
        assert(held == earlier.skip(overflow(earlier.len()) as int));
        if held.len() >= BROADCAST_CAPACITY {
            assert(held.drop_first().push(events.last()) =~= all.skip(overflow(all.len()) as int));
        } else {
            assert(held.push(events.last()) =~= all.skip(overflow(all.len()) as int));
        }
    } else {
        assert(all =~= had);
        assert(had.skip(0) =~= had);
    }
}

/// A new listener starts with an empty buffer, so any two listeners opened
/// before the same emissions have observed the same sequence after them, as
/// long as the emissions fit the buffer.
pub proof fn lemma_fresh_listeners_observe_the_same(bus: EventBusView, a: int, b: int, events: Seq<EventView>)
    requires
        bus.is_listening(a),
        bus.is_listening(b),
        bus.listeners[a].pending.len() == 0,
        bus.listeners[b].pending.len() == 0,
        events.len() <= BROADCAST_CAPACITY,
    ensures
        bus.delivered_all(events).listeners[a].pending == events,
        bus.delivered_all(events).listeners[b].pending == events,
{
    lemma_listener_observes_in_order(bus, a, events);
    lemma_listener_observes_in_order(bus, b, events);
    assert(bus.listeners[a].pending + events =~= events);
    assert(bus.listeners[b].pending + events =~= events);
}

} // verus!
