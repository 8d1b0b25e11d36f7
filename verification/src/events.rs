//! Domain events and the bounded, lossy, multi-consumer event bus.

use vstd::prelude::*;

verus! {

/// Mathematical model of a domain event.
pub ghost enum SystemEventV {
    McpConnected,
    McpDisconnected,
    ToolCalled { name: Seq<char>, id: u128 },
    ResourceAccessed { uri: Seq<char> },
    Error { message: Seq<char> },
    Custom(Seq<char>),
}

/// A domain event.  Events are transient: they are published and observed,
/// never stored.
#[derive(Debug)]
pub enum SystemEvent {
    /// The server connected.
    McpConnected,
    /// The server disconnected.
    McpDisconnected,
    /// A tool was called.
    ToolCalled { name: String, id: u128 },
    /// A resource was accessed.
    ResourceAccessed { uri: String },
    /// An error occurred.
    Error { message: String },
    /// An escape-hatch payload, interpreted as JSON where it parses.
    Custom(String),
}

impl View for SystemEvent {
    type V = SystemEventV;

    open spec fn view(&self) -> SystemEventV {
        match self {
            SystemEvent::McpConnected => SystemEventV::McpConnected,
            SystemEvent::McpDisconnected => SystemEventV::McpDisconnected,
            SystemEvent::ToolCalled { name, id } => SystemEventV::ToolCalled {
                name: name@,
                id: *id,
            },
            SystemEvent::ResourceAccessed { uri } => SystemEventV::ResourceAccessed { uri: uri@ },
            SystemEvent::Error { message } => SystemEventV::Error { message: message@ },
            SystemEvent::Custom(payload) => SystemEventV::Custom(payload@),
        }
    }
}

impl Clone for SystemEvent {
    fn clone(&self) -> (r: Self)
        ensures
            r@ == self@,
    {
        match self {
            SystemEvent::McpConnected => SystemEvent::McpConnected,
            SystemEvent::McpDisconnected => SystemEvent::McpDisconnected,
            SystemEvent::ToolCalled { name, id } => SystemEvent::ToolCalled {
                name: name.clone(),
                id: *id,
            },
            SystemEvent::ResourceAccessed { uri } => SystemEvent::ResourceAccessed {
                uri: uri.clone(),
            },
            SystemEvent::Error { message } => SystemEvent::Error { message: message.clone() },
            SystemEvent::Custom(payload) => SystemEvent::Custom(payload.clone()),
        }
    }
}

/// Mathematical model of a detailed event record.
pub ghost struct SystemEventDetailsV {
    pub id: u128,
    pub event_type: Seq<char>,
    pub description: Seq<char>,
    pub timestamp: i64,
    pub metadata: Seq<char>,
}

/// An event described in full: a typed name, a human-readable description
/// and an opaque metadata payload (JSON text).  Such a record is folded into
/// a plain [`SystemEvent`] before it is published.
#[derive(Debug)]
pub struct SystemEventDetails {
    /// Unique identifier of this event.
    pub id: u128,
    /// Type of event.
    pub event_type: String,
    /// Human-readable description.
    pub description: String,
    /// When the event occurred, in milliseconds since the Unix epoch.
    pub timestamp: i64,
    /// Additional metadata, as JSON text.
    pub metadata: String,
}

impl View for SystemEventDetails {
    type V = SystemEventDetailsV;

    open spec fn view(&self) -> SystemEventDetailsV {
        SystemEventDetailsV {
            id: self.id,
            event_type: self.event_type@,
            description: self.description@,
            timestamp: self.timestamp,
            metadata: self.metadata@,
        }
    }
}

/// Whether a detailed event's type names one of the known tools.
pub open spec fn spec_is_tool_event_type(t: Seq<char>) -> bool {
    ||| t == "file_read"@
    ||| t == "file_write"@
    ||| t == "directory_list"@
    ||| t == "http_request"@
    ||| t == "system_info"@
}

/// The plain event a detailed record is folded into: tool activity becomes a
/// tool call, anything else is reported as an error with the description.
pub open spec fn spec_event_of_details(d: SystemEventDetailsV) -> SystemEventV {
    if spec_is_tool_event_type(d.event_type) {
        SystemEventV::ToolCalled { name: d.event_type, id: d.id }
    } else {
        SystemEventV::Error { message: d.description }
    }
}

/// Mathematical model of one subscriber's slot on the bus.
#[verifier::ext_equal]
pub ghost struct SubscriberV {
    pub active: bool,
    pub queue: Seq<SystemEventV>,
    pub missed: u64,
}

/// One subscriber's slot: its pending events, oldest first, and how many
/// events were dropped on it since it last received.
#[derive(Debug)]
struct BusSlot {
    active: bool,
    queue: Vec<SystemEvent>,
    missed: u64,
}

impl View for BusSlot {
    type V = SubscriberV;

    closed spec fn view(&self) -> SubscriberV {
        SubscriberV {
            active: self.active,
            queue: Seq::new(self.queue@.len(), |i: int| self.queue@[i]@),
            missed: self.missed,
        }
    }
}

impl Clone for BusSlot {
    fn clone(&self) -> (r: Self)
        ensures
            r@ == self@,
    {
        let mut queue: Vec<SystemEvent> = Vec::new();
        let mut i: usize = 0;
        while i < self.queue.len()
            invariant
                i <= self.queue@.len(),
                queue@.len() == i,
                forall|j: int| 0 <= j < i ==> queue@[j]@ == self.queue@[j]@,
            decreases self.queue@.len() - i,
        {
            queue.push(self.queue[i].clone());
            i = i + 1;
        }
        let r = BusSlot { active: self.active, queue, missed: self.missed };
        assert(r@.queue =~= self@.queue);
        r
    }
}

/// What a subscriber receives when it asks the bus for the next event.
#[derive(Debug)]
pub enum RecvOutcome {
    /// The oldest pending event.
    Event(SystemEvent),
    /// The subscriber fell behind; this many events were dropped on it.
    Lagged(u64),
    /// Nothing is pending.
    Empty,
    /// The handle does not name a live subscription.
    Closed,
}

/// Mathematical model of a receive outcome.
pub ghost enum RecvOutcomeV {
    Event(SystemEventV),
    Lagged(u64),
    Empty,
    Closed,
}

impl View for RecvOutcome {
    type V = RecvOutcomeV;

    open spec fn view(&self) -> RecvOutcomeV {
        match self {
            RecvOutcome::Event(e) => RecvOutcomeV::Event(e@),
            RecvOutcome::Lagged(n) => RecvOutcomeV::Lagged(*n),
            RecvOutcome::Empty => RecvOutcomeV::Empty,
            RecvOutcome::Closed => RecvOutcomeV::Closed,
        }
    }
}

/// What offering one event to a bounded queue yields: the event goes to the
/// end, and when the queue is full the oldest pending event is dropped first.
pub open spec fn spec_offer(q: Seq<SystemEventV>, cap: nat, e: SystemEventV) -> Seq<SystemEventV> {
    if q.len() < cap {
        q.push(e)
    } else {
        q.drop_first().push(e)
    }
}

/// How one offer changes a subscriber's dropped-event count.
pub open spec fn spec_missed_after(q_len: nat, cap: nat, missed: u64) -> u64 {
    if q_len < cap {
        missed
    } else if missed < u64::MAX {
        (missed + 1) as u64
    } else {
        missed
    }
}

/// The subscriber slot an offer leaves behind.
pub open spec fn spec_offered(s: SubscriberV, cap: nat, e: SystemEventV) -> SubscriberV {
    SubscriberV {
        active: true,
        queue: spec_offer(s.queue, cap, e),
        missed: spec_missed_after(s.queue.len(), cap, s.missed),
    }
}

/// Offering a whole sequence of events, one after the other.
pub open spec fn spec_offer_all(q: Seq<SystemEventV>, cap: nat, es: Seq<SystemEventV>) -> Seq<
    SystemEventV,
>
    decreases es.len(),
{
    if es.len() == 0 {
        q
    } else {
        spec_offer_all(spec_offer(q, cap, es[0]), cap, es.drop_first())
    }
}

/// How many slots of a bus are live subscriptions.
pub open spec fn spec_active_count(s: Seq<SubscriberV>) -> nat
    decreases s.len(),
{
    if s.len() == 0 {
        0
    } else {
        spec_active_count(s.drop_last()) + if s.last().active {
            1nat
        } else {
            0nat
        }
    }
}

/// Bounded, multi-consumer broadcast of domain events.
///
/// Every live subscriber has its own bounded queue; publishing never blocks
/// and never fails.  A subscriber that falls behind the bound has its oldest
/// undelivered events dropped and is told how many it missed — other
/// subscribers are unaffected.
#[derive(Debug)]
pub struct EventBus {
    capacity: usize,
    slots: Vec<BusSlot>,
}

impl View for EventBus {
    type V = Seq<SubscriberV>;

    closed spec fn view(&self) -> Seq<SubscriberV> {
        Seq::new(self.slots@.len(), |i: int| self.slots@[i]@)
    }
}

impl EventBus {
    /// The bound on each subscriber's queue.
    pub closed spec fn spec_capacity(&self) -> nat {
        self.capacity as nat
    }

    /// Whether `id` names a live subscription.
    pub open spec fn is_subscriber(&self, id: int) -> bool {
        0 <= id < self@.len() && self@[id].active
    }

    /// The pending events of subscriber `id`, oldest first.
    pub open spec fn queue_of(&self, id: int) -> Seq<SystemEventV> {
        self@[id].queue
    }

    /// How many events were dropped on subscriber `id` since it last
    /// received.
    pub open spec fn missed_of(&self, id: int) -> u64 {
        self@[id].missed
    }

    /// No queue ever exceeds the bound, and the bound is positive.
    pub closed spec fn wf(&self) -> bool {
        self.capacity >= 1 && forall|i: int|
            0 <= i < self@.len() ==> (#[trigger] self@[i]).queue.len() <= self.capacity as nat
    }

    /// A bus with no subscribers.
    pub fn new(capacity: usize) -> (r: Self)
        requires
            capacity >= 1,
        ensures
            r.wf(),
            r@.len() == 0,
            r.spec_capacity() == capacity,
    {
        EventBus { capacity, slots: Vec::new() }
    }

    /// Registers a new independent subscriber.  It observes every event
    /// published after this call and none published before.
    pub fn subscribe(&mut self) -> (id: usize)
        requires
            old(self).wf(),
        ensures
            final(self).wf(),
            final(self).spec_capacity() == old(self).spec_capacity(),
            id == old(self)@.len(),
            final(self)@ == old(self)@.push(
                (SubscriberV { active: true, queue: Seq::empty(), missed: 0 }),
            ),
    {
        let id = self.slots.len();
        self.slots.push(BusSlot { active: true, queue: Vec::new(), missed: 0 });
        proof {
            assert(self@ =~~= old(self)@.push(
                (SubscriberV { active: true, queue: Seq::empty(), missed: 0 }),
            ));
        }
        id
    }

    /// Publishes one event: every live subscriber is offered it, with the
    /// oldest pending event dropped where a queue is full.  Returns how many
    /// subscribers were offered the event; with no subscribers the call is a
    /// no-op, never an error.
    pub fn publish(&mut self, event: &SystemEvent) -> (n: usize)
        requires
            old(self).wf(),
        ensures
            final(self).wf(),
            final(self).spec_capacity() == old(self).spec_capacity(),
            final(self)@.len() == old(self)@.len(),
            n == spec_active_count(old(self)@),
            forall|j: int|
                0 <= j < old(self)@.len() && old(self)@[j].active ==> final(self)@[j]
                    == spec_offered(old(self)@[j], old(self).spec_capacity(), event@),
            forall|j: int|
                0 <= j < old(self)@.len() && !old(self)@[j].active ==> final(self)@[j] == old(
                    self,
                )@[j],
    {
        let ghost orig = self@;
        let ghost cap = self.spec_capacity();
        let mut i: usize = 0;
        let mut n: usize = 0;
        while i < self.slots.len()
            invariant
                self.capacity == old(self).capacity,
                self.capacity >= 1,
                self@.len() == orig.len(),
                i <= orig.len(),
                n == spec_active_count(orig.take(i as int)),
                n <= i,
                cap == self.capacity as nat,
                forall|j: int| i <= j < orig.len() ==> self@[j] == orig[j],
                forall|j: int|
                    0 <= j < i && orig[j].active ==> self@[j] == spec_offered(
                        orig[j],
                        cap,
                        event@,
                    ),
                forall|j: int| 0 <= j < i && !orig[j].active ==> self@[j] == orig[j],
                forall|j: int|
                    0 <= j < self@.len() ==> (#[trigger] self@[j]).queue.len() <= cap,
            decreases orig.len() - i,
        {
            proof {
                assert(orig.take(i + 1).drop_last() =~= orig.take(i as int));
                assert(orig.take(i + 1).last() == orig[i as int]);
            }
            let ghost before = self@;
            proof {
                assert(self@[i as int] == orig[i as int]);
                assert(self@[i as int].active == self.slots@[i as int]@.active);
            }
            if self.slots[i].active {
                proof {
                    assert(orig[i as int].active);
                }
                let mut slot = self.slots[i].clone();
                if slot.queue.len() >= self.capacity {
                    slot.queue.remove(0);
                    if slot.missed < u64::MAX {
                        slot.missed = slot.missed + 1;
                    }
                }
                slot.queue.push(event.clone());
                proof {
                    assert(slot@.queue =~= spec_offer(orig[i as int].queue, cap, event@));
                    assert(slot@.missed == spec_missed_after(
                        orig[i as int].queue.len(),
                        cap,
                        orig[i as int].missed,
                    ));
                }
                self.slots[i] = slot;
                proof {
                    assert(self@[i as int] == slot@);
                    assert(self@[i as int] =~~= spec_offered(orig[i as int], cap, event@));
                    assert forall|j: int|
                        0 <= j < self@.len() && j != i as int implies self@[j] == before[j] by {}
                }
                n = n + 1;
            } else {
                proof {
                    assert(!orig[i as int].active);
                }
            }
            proof {
                assert forall|j: int|
                    0 <= j < i + 1 && orig[j].active implies self@[j] == spec_offered(
                    orig[j],
                    cap,
                    event@,
                ) by {
                    if j < i as int {
                        assert(self@[j] == before[j]);
                        assert(before[j] == spec_offered(orig[j], cap, event@));
                    }
                }
                assert forall|j: int|
                    0 <= j < i + 1 && !orig[j].active implies self@[j] == orig[j] by {
                    if j < i as int {
                        assert(self@[j] == before[j]);
                    }
                }
                assert forall|j: int|
                    0 <= j < self@.len() implies (#[trigger] self@[j]).queue.len() <= cap by {
                    if j != i as int {
                        assert(self@[j] == before[j]);
                        assert(before[j].queue.len() <= cap);
                    } else {
                        if orig[j].active {
                            assert(self@[j] == spec_offered(orig[j], cap, event@));
                            assert(orig[j].queue.len() <= cap);
                        } else {
                            assert(self@[j] == orig[j]);
                        }
                    }
                }
            }
            i = i + 1;
        }
        proof {
            assert(orig.take(orig.len() as int) =~= orig);
        }
        n
    }

    /// The next outcome for subscriber `id`: first a lag report when events
    /// were dropped on it, then pending events in publish order, then
    /// nothing.
    pub fn recv(&mut self, id: usize) -> (r: RecvOutcome)
        requires
            old(self).wf(),
        ensures
            final(self).wf(),
            final(self).spec_capacity() == old(self).spec_capacity(),
            final(self)@.len() == old(self)@.len(),
            forall|j: int|
                0 <= j < old(self)@.len() && j != id ==> final(self)@[j] == old(self)@[j],
            !old(self).is_subscriber(id as int) ==> r@ == RecvOutcomeV::Closed && final(self)@
                == old(self)@,
            old(self).is_subscriber(id as int) && old(self).missed_of(id as int) > 0 ==> r@
                == RecvOutcomeV::Lagged(old(self).missed_of(id as int)) && final(self)@[id as int]
                == (SubscriberV { missed: 0, ..old(self)@[id as int] }),
            old(self).is_subscriber(id as int) && old(self).missed_of(id as int) == 0 && old(
                self,
            ).queue_of(id as int).len() == 0 ==> r@ == RecvOutcomeV::Empty && final(self)@ == old(
                self,
            )@,
            old(self).is_subscriber(id as int) && old(self).missed_of(id as int) == 0 && old(
                self,
            ).queue_of(id as int).len() > 0 ==> r@ == RecvOutcomeV::Event(
                old(self).queue_of(id as int)[0],
            ) && final(self)@[id as int] == (SubscriberV {
                active: true,
                queue: old(self).queue_of(id as int).drop_first(),
                missed: 0,
            }),
    {
        if id >= self.slots.len() {
            return RecvOutcome::Closed;
        }
        if !self.slots[id].active {
            return RecvOutcome::Closed;
        }
        let mut slot = self.slots[id].clone();
        if slot.missed > 0 {
            let lag = slot.missed;
            slot.missed = 0;
            self.slots[id] = slot;
            proof {
                assert(self@[id as int] == slot@);
                assert(self@[id as int] =~~= (SubscriberV { missed: 0, ..old(self)@[id as int] }));
                assert forall|j: int|
                    0 <= j < self@.len() && j != id as int implies self@[j] == old(self)@[j] by {}
            }
            return RecvOutcome::Lagged(lag);
        }
        if slot.queue.len() == 0 {
            return RecvOutcome::Empty;
        }
        let ev = slot.queue.remove(0);
        proof {
            assert(slot@.queue =~= old(self).queue_of(id as int).drop_first());
        }
        self.slots[id] = slot;
        proof {
            assert(self@[id as int] == slot@);
            assert(self@[id as int] =~~= (SubscriberV {
                active: true,
                queue: old(self).queue_of(id as int).drop_first(),
                missed: 0,
            }));
            assert forall|j: int|
                0 <= j < self@.len() && j != id as int implies self@[j] == old(self)@[j] by {}
        }
        RecvOutcome::Event(ev)
    }

    /// Ends subscription `id` and releases its queue; a handle that names no
    /// live subscription is ignored.
    pub fn unsubscribe(&mut self, id: usize)
        requires
            old(self).wf(),
        ensures
            final(self).wf(),
            final(self).spec_capacity() == old(self).spec_capacity(),
            final(self)@.len() == old(self)@.len(),
            forall|j: int|
                0 <= j < old(self)@.len() && j != id ==> final(self)@[j] == old(self)@[j],
            id < old(self)@.len() ==> final(self)@[id as int] == (SubscriberV {
                active: false,
                queue: Seq::empty(),
                missed: 0,
            }),
    {
        if id < self.slots.len() {
            self.slots[id] = BusSlot { active: false, queue: Vec::new(), missed: 0 };
            proof {
                assert(self@[id as int] =~~= (SubscriberV {
                    active: false,
                    queue: Seq::empty(),
                    missed: 0,
                }));
                assert forall|j: int|
                    0 <= j < self@.len() && j != id as int implies self@[j] == old(self)@[j] by {}
            }
        }
    }

    /// How many live subscriptions the bus has.
    pub fn subscriber_count(&self) -> (n: usize)
        ensures
            n == spec_active_count(self@),
    {
        let mut i: usize = 0;
        let mut n: usize = 0;
        while i < self.slots.len()
            invariant
                i <= self@.len(),
                n == spec_active_count(self@.take(i as int)),
                n <= i,
            decreases self@.len() - i,
        {
            proof {
                assert(self@.take(i + 1).drop_last() =~= self@.take(i as int));
                assert(self@.take(i + 1).last() == self@[i as int]);
            }
            if self.slots[i].active {
                n = n + 1;
            }
            i = i + 1;
        }
        proof {
            assert(self@.take(self@.len() as int) =~= self@);
        }
        n
    }
}

} // verus!
