//! An in-memory session registry with live update notification.
//!
//! Clients create named sessions, look them up individually or as a
//! snapshot, and push numeric update events to a session.  A bounded
//! broadcast bus fans every update out to any number of subscribers;
//! a per-session stream filter narrows the shared feed down to the one
//! session a subscriber cares about, skipping over lag and terminating
//! on cancellation or bus closure.

use vstd::prelude::*;

pub mod bus;
pub mod laws;
pub mod session;
pub mod stream;

use crate::bus::EventBus;
use crate::session::SessionStore;

verus! {

/// Greeting served at the root of the interface.
pub fn index() -> (r: &'static str)
    ensures
        r@ == "Hello world"@,
{
    "Hello world"
}

/// Assembles the initial application state: an empty session store and
/// a fresh event bus.  Both are created once at process start and live
/// for the whole process.
pub fn rocket() -> (r: (SessionStore, EventBus))
    ensures
        r.0.wf(),
        r.0@ == Map::<u128, crate::session::SessionView>::empty(),
        r.1.wf(),
        r.1.first() == 0,
        r.1.events() == Seq::<crate::bus::SessionEvent>::empty(),
        !r.1.is_closed(),
        r.1.subscriber_count() == 0,
{
    (SessionStore::new(), EventBus::new())
}

} // verus!
