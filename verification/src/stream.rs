//! The per-session stream filter, and the entry points that tie the
//! session store to the event bus.
//!
//! A stream filter is one subscriber's view of the shared bus, narrowed
//! to a single target session.  Each round of its loop resolves a race
//! between an external cancellation signal and the next poll of the
//! bus; the filter forwards matching events, silently skips foreign
//! events and lag, and terminates only on cancellation or bus closure.

use vstd::prelude::*;

use crate::bus::publishes;
use crate::bus::EventBus;
use crate::bus::Receiver;
use crate::bus::RecvPoll;
use crate::bus::SessionEvent;
use crate::bus::UpdateSessionEvent;
use crate::session::SessionStore;

verus! {

/// The two states of a stream filter: it either keeps racing
/// cancellation against the next bus event, or it has ended.
#[derive(Clone, Copy, Debug, PartialEq, Eq, Structural)]
pub enum FilterState {
    Active,
    Terminated,
}

/// The resolved input of one loop round: which of the raced outcomes
/// fired first.
#[derive(Clone, Copy, Debug, PartialEq, Eq, Structural)]
pub enum StreamInput {
    Cancelled,
    Closed,
    Lagged,
    Event(SessionEvent),
}

/// What one loop round does towards the subscriber: emit an update
/// item, produce nothing and keep looping, or end the stream.
#[derive(Clone, Copy, Debug, PartialEq, Eq, Structural)]
pub enum StreamStep {
    Emit(SessionEvent),
    Skip,
    End,
}

/// The filter's transition function from the `Active` state:
/// cancellation and closure end the stream; lag and foreign events are
/// skipped; an event for the target session is emitted.
pub open spec fn transition(target: u128, input: StreamInput) -> (FilterState, StreamStep) {
    match input {
        StreamInput::Cancelled => (FilterState::Terminated, StreamStep::End),
        StreamInput::Closed => (FilterState::Terminated, StreamStep::End),
        StreamInput::Lagged => (FilterState::Active, StreamStep::Skip),
        StreamInput::Event(e) => if e.id == target {
            (FilterState::Active, StreamStep::Emit(e))
        } else {
            (FilterState::Active, StreamStep::Skip)
        },
    }
}

/// Executable form of the filter's transition function, for a driver
/// that resolves the race itself.
pub fn advance(target: u128, input: StreamInput) -> (r: (FilterState, StreamStep))
    ensures
        r == transition(target, input),
{
    match input {
        StreamInput::Cancelled => (FilterState::Terminated, StreamStep::End),
        StreamInput::Closed => (FilterState::Terminated, StreamStep::End),
        StreamInput::Lagged => (FilterState::Active, StreamStep::Skip),
        StreamInput::Event(e) => if e.id == target {
            (FilterState::Active, StreamStep::Emit(e))
        } else {
            (FilterState::Active, StreamStep::Skip)
        },
    }
}

/// The outcome of driving a stream filter one round: an update item
/// for the subscriber, nothing this round, nothing available yet (the
/// driver suspends until the bus moves or cancellation fires), or the
/// end of the stream.
#[derive(Clone, Copy, Debug, PartialEq, Eq, Structural)]
pub enum StepOutcome {
    Emit(SessionEvent),
    Continue,
    Wait,
    Ended,
}

/// Whether a request referring to a session was accepted or the
/// session is unknown.
#[derive(Clone, Copy, Debug, PartialEq, Eq, Structural)]
pub enum UpdateOutcome {
    Accepted,
    NotFound,
}

/// One subscriber's live stream of a single session's updates: a bus
/// subscription plus the target session and the filter state.
pub struct StreamFilter {
    target: u128,
    rx: Receiver,
    state: FilterState,
}

impl StreamFilter {
    /// The session this stream is narrowed to.
    pub closed spec fn target(&self) -> u128 {
        self.target
    }

    /// Whether the stream is still running.
    pub closed spec fn state(&self) -> FilterState {
        self.state
    }

    /// The subscription's cursor into the bus's event sequence.
    pub closed spec fn cursor(&self) -> u64 {
        self.rx.cursor()
    }

    /// Whether the stream is still running, as an observable value.
    pub fn is_active(&self) -> (r: bool)
        ensures
            r == (self.state() is Active),
    {
        match self.state {
            FilterState::Active => true,
            FilterState::Terminated => false,
        }
    }

    /// Drives the stream one round.  The driver reports whether
    /// cancellation (client disconnect or shutdown) fired first; the
    /// filter then polls its subscription and applies the transition
    /// function.  An item is emitted only for the target session; lag
    /// and foreign events never end the stream; cancellation and bus
    /// closure always do.
    pub fn step(&mut self, bus: &EventBus, cancelled: bool) -> (r: StepOutcome)
        requires
            bus.wf(),
            old(self).cursor() <= bus.tail(),
        ensures
            final(self).target() == old(self).target(),
            final(self).cursor() <= bus.tail(),
            final(self).cursor() >= old(self).cursor(),
            r matches StepOutcome::Emit(e) ==> e.id == old(self).target() && final(self).state()
                is Active,
            old(self).state() is Terminated ==> r == StepOutcome::Ended
                && *final(self) == *old(self),
            old(self).state() is Active && cancelled ==> r == StepOutcome::Ended
                && final(self).state() is Terminated && final(self).cursor() == old(self).cursor(),
            old(self).state() is Active && !cancelled && old(self).cursor() < bus.first() ==> r
                == StepOutcome::Continue && final(self).state() is Active && final(self).cursor()
                == bus.first(),
            old(self).state() is Active && !cancelled && bus.first() <= old(self).cursor()
                < bus.tail() ==> ({
                let e = bus.events()[old(self).cursor() - bus.first()];
                &&& final(self).state() is Active
                &&& final(self).cursor() == old(self).cursor() + 1
                &&& r == (if e.id == old(self).target() {
                    StepOutcome::Emit(e)
                } else {
                    StepOutcome::Continue
                })
            }),
            old(self).state() is Active && !cancelled && old(self).cursor() == bus.tail()
                && bus.is_closed() ==> r == StepOutcome::Ended && final(self).state()
                is Terminated && final(self).cursor() == old(self).cursor(),
            old(self).state() is Active && !cancelled && old(self).cursor() == bus.tail()
                && !bus.is_closed() ==> r == StepOutcome::Wait && *final(self) == *old(self),
    {
        match self.state {
            FilterState::Terminated => StepOutcome::Ended,
            FilterState::Active => {
                if cancelled {
                    self.state = FilterState::Terminated;
                    return StepOutcome::Ended;
                }
                match self.rx.poll_next(bus) {
                    RecvPoll::Lagged => StepOutcome::Continue,
                    RecvPoll::Event(e) => if e.id == self.target {
                        StepOutcome::Emit(e)
                    } else {
                        StepOutcome::Continue
                    },
                    RecvPoll::Closed => {
                        self.state = FilterState::Terminated;
                        StepOutcome::Ended
                    },
                    RecvPoll::Pending => StepOutcome::Wait,
                }
            },
        }
    }

    /// Ends the subscriber's interest in the stream and releases its
    /// subscription.  Only the bus's live-subscription count changes;
    /// retained events and every other subscription are unaffected.
    pub fn release(self, bus: &mut EventBus)
        requires
            old(bus).wf(),
        ensures
            final(bus).wf(),
            final(bus).events() == old(bus).events(),
            final(bus).first() == old(bus).first(),
            final(bus).is_closed() == old(bus).is_closed(),
            final(bus).subscriber_count() == (if old(bus).subscriber_count() > 0 {
                old(bus).subscriber_count() - 1
            } else {
                0
            }),
    {
        bus.unsubscribe(self.rx);
    }
}

/// Opens a live stream of one session's updates.  The session's
/// existence is checked against the store once, at open time; an
/// unknown id is signalled as not-found and no subscription is
/// created.  On success the new stream is `Active`, subscribed from
/// the bus's current tail (no history is replayed).
pub fn open_stream(store: &SessionStore, bus: &mut EventBus, id: u128) -> (r: Option<StreamFilter>)
    requires
        store.wf(),
        old(bus).wf(),
        old(bus).subscriber_count() < u64::MAX,
    ensures
        final(bus).wf(),
        !store@.contains_key(id) ==> r is None && *final(bus) == *old(bus),
        store@.contains_key(id) ==> ({
            &&& r matches Some(f) && f.target() == id && f.state() is Active
                && f.cursor() == old(bus).tail()
            &&& final(bus).events() == old(bus).events()
            &&& final(bus).first() == old(bus).first()
            &&& final(bus).is_closed() == old(bus).is_closed()
            &&& final(bus).subscriber_count() == old(bus).subscriber_count() + 1
        }),
{
    if !store.contains(id) {
        return None;
    }
    let rx = bus.subscribe();
    Some(StreamFilter { target: id, rx, state: FilterState::Active })
}

/// Accepts a numeric update for a session.  The session's existence is
/// checked first: an unknown id is signalled as not-found and nothing
/// is published.  On success the labelled event is published on the
/// bus.  The bus is process-lifetime state, so a caller never hands in
/// a closed bus; publishing here therefore always succeeds.
pub fn submit_update(
    store: &SessionStore,
    bus: &mut EventBus,
    id: u128,
    data: UpdateSessionEvent,
) -> (r: UpdateOutcome)
    requires
        store.wf(),
        old(bus).wf(),
        !old(bus).is_closed(),
        old(bus).tail() < u64::MAX,
    ensures
        final(bus).wf(),
        !store@.contains_key(id) ==> r == UpdateOutcome::NotFound && *final(bus) == *old(bus),
        store@.contains_key(id) ==> r == UpdateOutcome::Accepted && publishes(
            *old(bus),
            *final(bus),
            SessionEvent { id, update: data.update },
        ),
{
    if !store.contains(id) {
        return UpdateOutcome::NotFound;
    }
    let e = SessionEvent::from_update(data, id);
    match bus.publish(e) {
        Ok(()) => UpdateOutcome::Accepted,
        Err(_) => {
            proof {
                assert(false);
            }
            UpdateOutcome::Accepted
        },
    }
}

} // verus!
