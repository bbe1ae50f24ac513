//! The event bus: an in-process broadcast primitive. One producer side
//! publishes domain events; any number of subscriptions consume them,
//! each independently positioned. A subscription that connects late
//! misses earlier events (no replay). Each subscription retains at most
//! the channel's capacity of unread events: when a slow consumer falls
//! further behind, the oldest unread events are dropped for it and the
//! next receive reports how many were missed. Publishing never blocks
//! and never fails, whether or not any subscriber is attached.

use crate::events::{AppEvent, AppEventV};
use vstd::prelude::*;

verus! {

/// The view of the bus: its capacity, every event ever published (in
/// order), and each subscription's next-read position (`None` once
/// unsubscribed).
pub ghost struct EventBusV {
    pub capacity: int,
    pub history: Seq<AppEventV>,
    pub subs: Seq<Option<int>>,
}

/// A well-formed bus view: positive capacity, and every live position
/// within the history.
pub open spec fn bus_view_wf(b: EventBusV) -> bool {
    &&& b.capacity >= 1
    &&& forall|i: int|
        0 <= i < b.subs.len() ==> match #[trigger] b.subs[i] {
            Some(p) => 0 <= p <= b.history.len(),
            None => true,
        }
}

/// The position of the oldest event still retained for consumers: the
/// buffer keeps the last `capacity` events once more than `capacity`
/// were published.
pub open spec fn oldest_retained(b: EventBusV) -> int {
    if b.history.len() <= b.capacity {
        0
    } else {
        b.history.len() - b.capacity
    }
}

/// Publishing appends to the history; subscriptions are untouched.
pub open spec fn publish_spec(b: EventBusV, e: AppEventV) -> EventBusV {
    EventBusV { capacity: b.capacity, history: b.history.push(e), subs: b.subs }
}

/// Subscribing adds a subscription positioned at the present end of the
/// history, and hands back its identifier.
pub open spec fn subscribe_spec(b: EventBusV) -> (EventBusV, int) {
    (
        EventBusV {
            capacity: b.capacity,
            history: b.history,
            subs: b.subs.push(Some(b.history.len() as int)),
        },
        b.subs.len() as int,
    )
}

/// Unsubscribing clears the subscription's position; nothing else moves.
pub open spec fn unsubscribe_spec(b: EventBusV, id: int) -> EventBusV {
    EventBusV { capacity: b.capacity, history: b.history, subs: b.subs.update(id, None) }
}

/// The view of one receive outcome.
pub ghost enum RecvOutcomeV {
    /// The next event for this subscription.
    Event(AppEventV),
    /// The subscription had fallen behind the retained window: this many
    /// events were dropped for it, and it now stands at the oldest
    /// retained one.
    Lagged(int),
    /// Nothing published beyond this subscription's position yet.
    Empty,
    /// The subscription was closed.
    Closed,
}

/// What one receive on subscription `id` returns, and the bus state it
/// leaves behind.
pub open spec fn recv_spec(b: EventBusV, id: int) -> (RecvOutcomeV, EventBusV) {
    match b.subs[id] {
        None => (RecvOutcomeV::Closed, b),
        Some(p) => if p >= b.history.len() {
            (RecvOutcomeV::Empty, b)
        } else if p < oldest_retained(b) {
            (
                RecvOutcomeV::Lagged(oldest_retained(b) - p),
                EventBusV {
                    capacity: b.capacity,
                    history: b.history,
                    subs: b.subs.update(id, Some(oldest_retained(b))),
                },
            )
        } else {
            (
                RecvOutcomeV::Event(b.history[p]),
                EventBusV {
                    capacity: b.capacity,
                    history: b.history,
                    subs: b.subs.update(id, Some(p + 1)),
                },
            )
        },
    }
}

/// What a receive hands back.
pub enum RecvOutcome {
    Event(AppEvent),
    Lagged(u64),
    Empty,
    Closed,
}

impl View for RecvOutcome {
    type V = RecvOutcomeV;

    open spec fn view(&self) -> RecvOutcomeV {
        match self {
            RecvOutcome::Event(e) => RecvOutcomeV::Event(e@),
            RecvOutcome::Lagged(n) => RecvOutcomeV::Lagged(*n as int),
            RecvOutcome::Empty => RecvOutcomeV::Empty,
            RecvOutcome::Closed => RecvOutcomeV::Closed,
        }
    }
}

/// The in-process event bus.
pub struct EventBus {
    capacity: usize,
    /// How many events have been dropped from the front of the buffer.
    base: usize,
    /// The retained tail of the history.
    buffer: Vec<AppEvent>,
    /// Next-read position of each subscription, absolute in the history.
    subscribers: Vec<Option<usize>>,
    /// Every event ever published.
    history: Ghost<Seq<AppEventV>>,
}

impl View for EventBus {
    type V = EventBusV;

    closed spec fn view(&self) -> EventBusV {
        EventBusV {
            capacity: self.capacity as int,
            history: self.history@,
            subs: self.subscribers@.map_values(
                |o: Option<usize>|
                    match o {
                        Some(p) => Some(p as int),
                        None => None,
                    },
            ),
        }
    }
}

impl EventBus {
    /// Well-formed: the representation invariant tying the retained
    /// window to the history, and every subscription position to it.
    pub closed spec fn wf(&self) -> bool {
        &&& self.capacity >= 1
        &&& self.history@.len() == self.base + self.buffer@.len()
        &&& self.history@.len() <= usize::MAX
        &&& self.buffer@.len() <= self.capacity
        &&& self.base == oldest_retained(self@)
        &&& forall|i: int|
            0 <= i < self.buffer@.len() ==> (#[trigger] self.buffer@[i])@ == self.history@[
                self.base + i
            ]
        &&& forall|i: int|
            0 <= i < self.subscribers@.len() ==> match #[trigger] self.subscribers@[i] {
                Some(p) => p <= self.history@.len(),
                None => true,
            }
    }

    /// A bus with the given per-subscription buffer capacity.
    pub fn new(capacity: usize) -> (r: EventBus)
        requires
            capacity >= 1,
        ensures
            r@ == (EventBusV {
                capacity: capacity as int,
                history: Seq::<AppEventV>::empty(),
                subs: Seq::<Option<int>>::empty(),
            }),
            r.wf(),
            bus_view_wf(r@),
    {
        let r = EventBus {
            capacity,
            base: 0,
            buffer: Vec::new(),
            subscribers: Vec::new(),
            history: Ghost(Seq::empty()),
        };
        proof {
            assert(r@.subs =~= Seq::<Option<int>>::empty());
        }
        r
    }

    /// How many events were ever published.
    pub fn published_count(&self) -> (r: usize)
        requires
            self.wf(),
        ensures
            r == self@.history.len(),
    {
        self.base + self.buffer.len()
    }

    /// Publishes an event: appended to the history, dropped from the
    /// retained window only when the window is full. Never blocks, never
    /// fails, whether or not any subscription exists.
    pub fn publish(&mut self, event: AppEvent)
        requires
            old(self).wf(),
            old(self)@.history.len() < usize::MAX,
        ensures
            final(self).wf(),
            final(self)@ == publish_spec(old(self)@, event@),
            bus_view_wf(final(self)@),
    {
        let ghost prev = self@;
        self.buffer.push(event);
        proof {
            self.history@ = self.history@.push(event@);
        }
        if self.buffer.len() > self.capacity {
            let _ = self.buffer.remove(0);
            self.base += 1;
        }
        proof {
            assert(self@.subs =~= publish_spec(prev, event@).subs);
            assert(self@ =~= publish_spec(prev, event@));
        }
    }

    /// Opens a subscription positioned at the present end of the history:
    /// it will see exactly the events published from now on (no replay).
    pub fn subscribe(&mut self) -> (id: usize)
        requires
            old(self).wf(),
        ensures
            final(self).wf(),
            final(self)@ == subscribe_spec(old(self)@).0,
            id as int == subscribe_spec(old(self)@).1,
            bus_view_wf(final(self)@),
    {
        let ghost prev = self@;
        let id = self.subscribers.len();
        let pos = self.base + self.buffer.len();
        self.subscribers.push(Some(pos));
        proof {
            assert(self@.subs =~= subscribe_spec(prev).0.subs);
            assert(self@ =~= subscribe_spec(prev).0);
        }
        id
    }

    /// Closes a subscription; the producer and the other subscriptions
    /// are unaffected.
    pub fn unsubscribe(&mut self, id: usize)
        requires
            old(self).wf(),
            id < old(self)@.subs.len(),
        ensures
            final(self).wf(),
            final(self)@ == unsubscribe_spec(old(self)@, id as int),
            bus_view_wf(final(self)@),
    {
        let ghost prev = self@;
        self.subscribers.set(id, None);
        proof {
            assert(self@.subs =~= unsubscribe_spec(prev, id as int).subs);
            assert(self@ =~= unsubscribe_spec(prev, id as int));
        }
    }

    /// Receives the next event for subscription `id`: the event at its
    /// position, or how far it lagged, or nothing if it has seen all
    /// events, or nothing at all once closed.
    pub fn recv(&mut self, id: usize) -> (r: RecvOutcome)
        requires
            old(self).wf(),
            id < old(self)@.subs.len(),
        ensures
            final(self).wf(),
            r@ == recv_spec(old(self)@, id as int).0,
            final(self)@ == recv_spec(old(self)@, id as int).1,
            bus_view_wf(final(self)@),
    {
        let ghost prev = self@;
        let total = self.base + self.buffer.len();
        match self.subscribers[id] {
            None => RecvOutcome::Closed,
            Some(p) => {
                if p >= total {
                    RecvOutcome::Empty
                } else if p < self.base {
                    let missed = (self.base - p) as u64;
                    self.subscribers.set(id, Some(self.base));
                    proof {
                        assert(self@.subs =~= recv_spec(prev, id as int).1.subs);
                        assert(self@ =~= recv_spec(prev, id as int).1);
                    }
                    RecvOutcome::Lagged(missed)
                } else {
                    let event = self.buffer[p - self.base].clone();
                    self.subscribers.set(id, Some(p + 1));
                    proof {
                        assert(self@.subs =~= recv_spec(prev, id as int).1.subs);
                        assert(self@ =~= recv_spec(prev, id as int).1);
                    }
                    RecvOutcome::Event(event)
                }
            },
        }
    }
}

/// A subscription opened before a publish receives that event: on a
/// well-formed bus, subscribing, then publishing `e`, then receiving on
/// the new subscription yields exactly `e`.
pub proof fn lemma_subscriber_before_publish_receives(b: EventBusV, e: AppEventV)
    requires
        bus_view_wf(b),
    ensures
        ({
            let (b1, id) = subscribe_spec(b);
            let b2 = publish_spec(b1, e);
            recv_spec(b2, id).0 == RecvOutcomeV::Event(e)
        }),
{
    let (b1, id) = subscribe_spec(b);
    let b2 = publish_spec(b1, e);
    assert(b2.subs[id] == Some(b.history.len() as int));
    assert(b2.history[b.history.len() as int] == e);
}

/// A subscription opened after a publish does not receive that event:
/// its position lies beyond it, so its first receive finds nothing.
pub proof fn lemma_subscriber_after_publish_misses(b: EventBusV, e: AppEventV)
    requires
        bus_view_wf(b),
    ensures
        ({
            let b1 = publish_spec(b, e);
            let (b2, id) = subscribe_spec(b1);
            recv_spec(b2, id).0 == RecvOutcomeV::Empty
        }),
{
}

/// Closing a subscription neither blocks nor errs the publisher: a
/// publish after any unsubscribe appends the event exactly as before.
pub proof fn lemma_unsubscribe_does_not_disturb_publish(b: EventBusV, id: int, e: AppEventV)
    ensures
        publish_spec(unsubscribe_spec(b, id), e).history == b.history.push(e),
        publish_spec(unsubscribe_spec(b, id), e).capacity == b.capacity,
{
}

} // verus!
