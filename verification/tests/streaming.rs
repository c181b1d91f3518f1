use session_registry::bus::{BusError, EventBus, SessionEvent, UpdateSessionEvent, BUS_CAPACITY};
use session_registry::session::SessionStore;
use session_registry::stream::{
    advance, open_stream, submit_update, FilterState, StepOutcome, StreamFilter, StreamInput,
    StreamStep, UpdateOutcome,
};

fn store_with(ids: &[(u128, &str)]) -> SessionStore {
    let mut store = SessionStore::new();
    for (id, name) in ids {
        store.create_with_id(*id, name.to_string());
    }
    store
}

/// Drives the stream until it reports `Wait` or `Ended`, collecting
/// every emitted event.
fn drain(filter: &mut StreamFilter, bus: &EventBus) -> (Vec<SessionEvent>, bool) {
    let mut emitted = Vec::new();
    loop {
        match filter.step(bus, false) {
            StepOutcome::Emit(e) => emitted.push(e),
            StepOutcome::Continue => continue,
            StepOutcome::Wait => return (emitted, false),
            StepOutcome::Ended => return (emitted, true),
        }
    }
}

#[test]
fn scenario_single_stream_receives_exactly_its_update() {
    let mut store = SessionStore::new();
    let id1 = store.create("alice".to_string());
    let id2 = store.create("bob".to_string());
    let mut bus = EventBus::new();

    let mut stream = open_stream(&store, &mut bus, id1).expect("session exists");

    let r = submit_update(&store, &mut bus, id1, UpdateSessionEvent { update: 42 });
    assert_eq!(r, UpdateOutcome::Accepted);

    let (got, ended) = drain(&mut stream, &bus);
    assert!(!ended);
    assert_eq!(got, vec![SessionEvent { id: id1, update: 42 }]);

    let r = submit_update(&store, &mut bus, id2, UpdateSessionEvent { update: 7 });
    assert_eq!(r, UpdateOutcome::Accepted);

    // the update for the other session is filtered out
    let (got, ended) = drain(&mut stream, &bus);
    assert!(!ended);
    assert!(got.is_empty());
}

#[test]
fn concurrent_streams_are_isolated() {
    let store = store_with(&[(1, "alice"), (2, "bob")]);
    let mut bus = EventBus::new();

    let mut stream_a = open_stream(&store, &mut bus, 1).unwrap();
    let mut stream_b = open_stream(&store, &mut bus, 2).unwrap();
    assert_eq!(bus.live_subscribers(), 2);

    for (id, update) in [(1u128, 10u32), (2, 20), (1, 11), (2, 21)] {
        let r = submit_update(&store, &mut bus, id, UpdateSessionEvent { update });
        assert_eq!(r, UpdateOutcome::Accepted);
    }

    let (got_a, _) = drain(&mut stream_a, &bus);
    let (got_b, _) = drain(&mut stream_b, &bus);
    assert_eq!(
        got_a,
        vec![SessionEvent { id: 1, update: 10 }, SessionEvent { id: 1, update: 11 }]
    );
    assert_eq!(
        got_b,
        vec![SessionEvent { id: 2, update: 20 }, SessionEvent { id: 2, update: 21 }]
    );
}

#[test]
fn lagged_stream_survives_and_resumes_after_gap() {
    let store = store_with(&[(1, "alice")]);
    let mut bus = EventBus::new();
    let mut stream = open_stream(&store, &mut bus, 1).unwrap();

    // flood the bus well past its capacity while the stream sleeps
    let total = (BUS_CAPACITY + 6) as u32;
    for update in 0..total {
        let r = submit_update(&store, &mut bus, 1, UpdateSessionEvent { update });
        assert_eq!(r, UpdateOutcome::Accepted);
    }

    // the first poll reports the lag and must not end the stream
    assert!(matches!(stream.step(&bus, false), StepOutcome::Continue));
    assert!(stream.is_active());

    // what follows is exactly the retained window: the events after
    // the gap, in publish order, with nothing replayed
    let (got, ended) = drain(&mut stream, &bus);
    assert!(!ended);
    assert_eq!(got.len(), BUS_CAPACITY);
    assert_eq!(got[0].update, 6);
    assert_eq!(got[BUS_CAPACITY - 1].update, total - 1);

    // the stream keeps delivering events published after the flood
    submit_update(&store, &mut bus, 1, UpdateSessionEvent { update: 9999 });
    let (got, ended) = drain(&mut stream, &bus);
    assert!(!ended);
    assert_eq!(got, vec![SessionEvent { id: 1, update: 9999 }]);
}

#[test]
fn open_stream_unknown_id_leaves_no_subscription() {
    let store = store_with(&[(1, "alice")]);
    let mut bus = EventBus::new();
    assert!(open_stream(&store, &mut bus, 2).is_none());
    assert_eq!(bus.live_subscribers(), 0);
    assert_eq!(bus.retained_len(), 0);
}

#[test]
fn cancellation_ends_stream_and_releases_subscription() {
    let store = store_with(&[(1, "alice")]);
    let mut bus = EventBus::new();

    let mut cancelled_stream = open_stream(&store, &mut bus, 1).unwrap();
    let mut other_stream = open_stream(&store, &mut bus, 1).unwrap();
    assert_eq!(bus.live_subscribers(), 2);

    submit_update(&store, &mut bus, 1, UpdateSessionEvent { update: 5 });

    // the client disconnects: the raced cancellation fires first
    assert_eq!(cancelled_stream.step(&bus, true), StepOutcome::Ended);
    assert!(!cancelled_stream.is_active());
    // once terminated, the stream stays terminated
    assert_eq!(cancelled_stream.step(&bus, false), StepOutcome::Ended);
    cancelled_stream.release(&mut bus);
    assert_eq!(bus.live_subscribers(), 1);

    // neither the store nor the other stream is affected
    assert_eq!(store.get(1).unwrap().name, "alice");
    let (got, ended) = drain(&mut other_stream, &bus);
    assert!(!ended);
    assert_eq!(got, vec![SessionEvent { id: 1, update: 5 }]);
}

#[test]
fn closed_bus_drains_then_ends_stream() {
    let store = store_with(&[(1, "alice")]);
    let mut bus = EventBus::new();
    let mut stream = open_stream(&store, &mut bus, 1).unwrap();

    submit_update(&store, &mut bus, 1, UpdateSessionEvent { update: 3 });
    bus.close();

    // the retained event is still delivered, then the stream ends
    assert_eq!(stream.step(&bus, false), StepOutcome::Emit(SessionEvent { id: 1, update: 3 }));
    assert_eq!(stream.step(&bus, false), StepOutcome::Ended);
    assert!(!stream.is_active());
}

#[test]
fn publish_on_closed_bus_is_refused() {
    let mut bus = EventBus::new();
    bus.close();
    let r = bus.publish(SessionEvent { id: 1, update: 2 });
    assert_eq!(r, Err(BusError::Closed));
    assert_eq!(bus.retained_len(), 0);
}

#[test]
fn transition_function_cases() {
    let e_match = SessionEvent { id: 8, update: 1 };
    let e_other = SessionEvent { id: 9, update: 1 };
    assert_eq!(
        advance(8, StreamInput::Cancelled),
        (FilterState::Terminated, StreamStep::End)
    );
    assert_eq!(
        advance(8, StreamInput::Closed),
        (FilterState::Terminated, StreamStep::End)
    );
    assert_eq!(advance(8, StreamInput::Lagged), (FilterState::Active, StreamStep::Skip));
    assert_eq!(
        advance(8, StreamInput::Event(e_match)),
        (FilterState::Active, StreamStep::Emit(e_match))
    );
    assert_eq!(
        advance(8, StreamInput::Event(e_other)),
        (FilterState::Active, StreamStep::Skip)
    );
}

#[test]
fn from_update_labels_event_with_session() {
    let e = SessionEvent::from_update(UpdateSessionEvent { update: 9 }, 77);
    assert_eq!(e, SessionEvent { id: 77, update: 9 });
}
