//! The event bus: a single shared broadcast primitive with a bounded
//! ring of retained events.
//!
//! Every published update is appended to the ring; once the ring holds
//! `BUS_CAPACITY` events the oldest one is evicted.  Each subscriber
//! owns a cursor into the global event sequence.  A subscriber whose
//! cursor has fallen behind the oldest retained event is lagged: its
//! cursor is forcibly advanced to the oldest retained entry and it is
//! told to skip the gap rather than block producers.

use vstd::prelude::*;

verus! {

/// Number of events the bus retains: a subscriber further behind than
/// this has lost events.
pub const BUS_CAPACITY: usize = 1024;

/// An ephemeral update event in transit on the bus: which session it
/// concerns and the numeric update value.
#[derive(Clone, Copy, Debug, PartialEq, Eq, Structural)]
pub struct SessionEvent {
    pub id: u128,
    pub update: u32,
}

/// The body of an update request: the numeric update value alone; the
/// session it targets travels separately in the request path.
#[derive(Clone, Copy, Debug, PartialEq, Eq, Structural)]
pub struct UpdateSessionEvent {
    pub update: u32,
}

impl SessionEvent {
    /// Labels an update request with the session it targets.
    pub fn from_update(e: UpdateSessionEvent, id: u128) -> (r: SessionEvent)
        ensures
            r.id == id,
            r.update == e.update,
    {
        SessionEvent { id, update: e.update }
    }
}

/// Publishing on a shut-down bus is refused.
#[derive(Clone, Copy, Debug, PartialEq, Eq, Structural)]
pub enum BusError {
    Closed,
}

/// One poll of a subscriber's cursor: the next event, a lag notice
/// (recoverable: retry), closure (terminal), or nothing available yet
/// (the caller suspends until more is published).
#[derive(Clone, Copy, Debug, PartialEq, Eq, Structural)]
pub enum RecvPoll {
    Event(SessionEvent),
    Lagged,
    Closed,
    Pending,
}

/// The shared broadcast bus.  `events()` is the retained window of the
/// global publish sequence and `first()` the sequence number of its
/// oldest entry, so event number `first() + i` is `events()[i]` and
/// the next event published gets number `tail()`.
pub struct EventBus {
    buffer: Vec<SessionEvent>,
    first: u64,
    closed: bool,
    subscribers: u64,
}

impl EventBus {
    /// The retained events, oldest first.
    pub closed spec fn events(&self) -> Seq<SessionEvent> {
        self.buffer@
    }

    /// Sequence number of the oldest retained event.
    pub closed spec fn first(&self) -> u64 {
        self.first
    }

    /// Sequence number of the next event to be published.
    pub open spec fn tail(&self) -> int {
        self.first() + self.events().len()
    }

    /// Whether the bus has been shut down.
    pub closed spec fn is_closed(&self) -> bool {
        self.closed
    }

    /// Number of live subscriptions.
    pub closed spec fn subscriber_count(&self) -> u64 {
        self.subscribers
    }

    /// The ring never exceeds its capacity and sequence numbers fit in
    /// a machine word.
    pub closed spec fn wf(&self) -> bool {
        self.events().len() <= BUS_CAPACITY && self.tail() <= u64::MAX
    }

    /// Number of live subscriptions, as an observable value.
    pub fn live_subscribers(&self) -> (r: u64)
        ensures
            r == self.subscriber_count(),
    {
        self.subscribers
    }

    /// Number of events currently retained in the ring.
    pub fn retained_len(&self) -> (r: usize)
        ensures
            r == self.events().len(),
    {
        self.buffer.len()
    }

    /// Whether the bus has been shut down, as an observable value.
    pub fn is_shut(&self) -> (r: bool)
        ensures
            r == self.is_closed(),
    {
        self.closed
    }

    /// Sequence number of the next event to be published, as an
    /// observable value.
    pub fn tail_seq(&self) -> (r: u64)
        requires
            self.wf(),
        ensures
            r == self.tail(),
    {
        self.first + self.buffer.len() as u64
    }

    /// A fresh, open bus with no retained events and no subscribers.
    pub fn new() -> (r: EventBus)
        ensures
            r.wf(),
            r.events() == Seq::<SessionEvent>::empty(),
            r.first() == 0,
            !r.is_closed(),
            r.subscriber_count() == 0,
    {
        EventBus { buffer: Vec::new(), first: 0, closed: false, subscribers: 0 }
    }

    /// Appends an event to the ring, evicting the oldest retained
    /// entry if the ring is full.  Never blocks on slow subscribers
    /// and succeeds exactly when the bus is still open; on a
    /// shut-down bus nothing changes.
    pub fn publish(&mut self, e: SessionEvent) -> (r: Result<(), BusError>)
        requires
            old(self).wf(),
            old(self).tail() < u64::MAX,
        ensures
            final(self).wf(),
            old(self).is_closed() ==> r == Result::<(), BusError>::Err(BusError::Closed)
                && *final(self) == *old(self),
            !old(self).is_closed() ==> r == Result::<(), BusError>::Ok(()) && publishes(
                *old(self),
                *final(self),
                e,
            ),
    {
        if self.closed {
            return Err(BusError::Closed);
        }
        if self.buffer.len() == BUS_CAPACITY {
            let ghost before = self.buffer@;
            self.buffer.remove(0);
            proof {
                assert(self.buffer@ =~= before.drop_first());
            }
            self.first = self.first + 1;
        }
        self.buffer.push(e);
        Ok(())
    }

    /// A new subscription whose cursor starts at the current tail:
    /// subscribers receive no history predating their subscription.
    pub fn subscribe(&mut self) -> (r: Receiver)
        requires
            old(self).wf(),
            old(self).subscriber_count() < u64::MAX,
        ensures
            final(self).wf(),
            final(self).events() == old(self).events(),
            final(self).first() == old(self).first(),
            final(self).is_closed() == old(self).is_closed(),
            final(self).subscriber_count() == old(self).subscriber_count() + 1,
            r.cursor() == old(self).tail(),
    {
        let len_u64: u64 = self.buffer.len() as u64;
        let cursor: u64 = self.first + len_u64;
        self.subscribers = self.subscribers + 1;
        Receiver { cursor }
    }

    /// Releases a subscription handle.  Only the live-subscription
    /// count changes; retained events are unaffected.
    pub fn unsubscribe(&mut self, rx: Receiver)
        requires
            old(self).wf(),
        ensures
            final(self).wf(),
            final(self).events() == old(self).events(),
            final(self).first() == old(self).first(),
            final(self).is_closed() == old(self).is_closed(),
            final(self).subscriber_count() == (if old(self).subscriber_count() > 0 {
                old(self).subscriber_count() - 1
            } else {
                0
            }),
    {
        let _ = rx;
        if self.subscribers > 0 {
            self.subscribers = self.subscribers - 1;
        }
    }

    /// Shuts the bus down.  Retained events stay readable; every
    /// subscriber that drains them then sees `Closed`.
    pub fn close(&mut self)
        requires
            old(self).wf(),
        ensures
            final(self).wf(),
            final(self).events() == old(self).events(),
            final(self).first() == old(self).first(),
            final(self).is_closed(),
            final(self).subscriber_count() == old(self).subscriber_count(),
    {
        self.closed = true;
    }
}

/// How a successful publish of `e` changes the bus: the event is
/// appended, the oldest entry is evicted exactly when the ring was
/// full, and closure state and subscriptions are untouched.
pub open spec fn publishes(pre: EventBus, post: EventBus, e: SessionEvent) -> bool {
    &&& post.is_closed() == pre.is_closed()
    &&& post.subscriber_count() == pre.subscriber_count()
    &&& if pre.events().len() < BUS_CAPACITY {
        post.first() == pre.first() && post.events() == pre.events().push(e)
    } else {
        post.first() == pre.first() + 1 && post.events() == pre.events().drop_first().push(e)
    }
}

/// One subscription: a cursor into the bus's global event sequence.
/// The cursor never runs ahead of the bus's tail; it falls behind the
/// bus's `first()` exactly when the subscriber has lagged.
pub struct Receiver {
    cursor: u64,
}

impl Receiver {
    /// Sequence number of the next event this subscriber will observe.
    pub closed spec fn cursor(&self) -> u64 {
        self.cursor
    }

    /// One poll of this subscription against the bus, the three-way
    /// outcome of the broadcast contract plus `Pending` for "nothing
    /// new yet; suspend and retry".  Lag resynchronizes the cursor to
    /// the oldest retained event and is recoverable; missed events are
    /// not replayed.  `Closed` is reported only once all retained
    /// events have been drained.
    pub fn poll_next(&mut self, bus: &EventBus) -> (r: RecvPoll)
        requires
            bus.wf(),
            old(self).cursor() <= bus.tail(),
        ensures
            final(self).cursor() <= bus.tail(),
            final(self).cursor() >= old(self).cursor(),
            old(self).cursor() < bus.first() ==> r == RecvPoll::Lagged && final(self).cursor()
                == bus.first(),
            bus.first() <= old(self).cursor() < bus.tail() ==> r == RecvPoll::Event(
                bus.events()[old(self).cursor() - bus.first()],
            ) && final(self).cursor() == old(self).cursor() + 1,
            old(self).cursor() == bus.tail() && bus.is_closed() ==> r == RecvPoll::Closed
                && *final(self) == *old(self),
            old(self).cursor() == bus.tail() && !bus.is_closed() ==> r == RecvPoll::Pending
                && *final(self) == *old(self),
    {
        if self.cursor < bus.first {
            self.cursor = bus.first;
            return RecvPoll::Lagged;
        }
        let offset: u64 = self.cursor - bus.first;
        if offset < bus.buffer.len() as u64 {
            let e = bus.buffer[offset as usize];
            self.cursor = self.cursor + 1;
            return RecvPoll::Event(e);
        }
        if bus.closed {
            RecvPoll::Closed
        } else {
            RecvPoll::Pending
        }
    }
}

} // verus!
