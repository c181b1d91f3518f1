use session_registry::bus::EventBus;
use session_registry::session::SessionStore;
use session_registry::stream::{open_stream, submit_update, UpdateOutcome};
use session_registry::bus::UpdateSessionEvent;
use session_registry::{index, rocket};

#[test]
fn greeting_is_hello_world() {
    assert_eq!(index(), "Hello world");
}

#[test]
fn initial_state_is_empty() {
    let (store, bus) = rocket();
    assert!(store.list().is_empty());
    assert_eq!(bus.live_subscribers(), 0);
    assert_eq!(bus.retained_len(), 0);
}

#[test]
fn create_then_get_returns_name_and_zero_count() {
    let mut store = SessionStore::new();
    let id = store.create("alice".to_string());
    let got = store.get(id).expect("created session must be found");
    assert_eq!(got.name, "alice");
    assert_eq!(got.count, 0);
}

#[test]
fn create_with_empty_name() {
    let mut store = SessionStore::new();
    let id = store.create(String::new());
    let got = store.get(id).expect("created session must be found");
    assert_eq!(got.name, "");
    assert_eq!(got.count, 0);
}

#[test]
fn two_creates_are_both_retrievable() {
    let mut store = SessionStore::new();
    let id1 = store.create("alice".to_string());
    let id2 = store.create("bob".to_string());
    assert_eq!(store.get(id1).unwrap().name, "alice");
    assert_eq!(store.get(id2).unwrap().name, "bob");
}

#[test]
fn create_with_id_at_extremes() {
    let mut store = SessionStore::new();
    store.create_with_id(0, "zero".to_string());
    store.create_with_id(u128::MAX, "max".to_string());
    assert_eq!(store.get(0).unwrap().name, "zero");
    assert_eq!(store.get(u128::MAX).unwrap().name, "max");
}

#[test]
fn create_with_same_id_replaces_record() {
    let mut store = SessionStore::new();
    store.create_with_id(7, "first".to_string());
    store.create_with_id(7, "second".to_string());
    assert_eq!(store.get(7).unwrap().name, "second");
    assert_eq!(store.list().len(), 1);
}

#[test]
fn contains_tracks_membership() {
    let mut store = SessionStore::new();
    assert!(!store.contains(3));
    store.create_with_id(3, "x".to_string());
    assert!(store.contains(3));
    assert!(!store.contains(4));
}

#[test]
fn list_snapshot_excludes_later_creates() {
    let mut store = SessionStore::new();
    store.create_with_id(1, "alice".to_string());
    let snapshot = store.list();
    assert_eq!(snapshot.len(), 1);
    assert_eq!(snapshot[0].0, 1);
    assert_eq!(snapshot[0].1.name, "alice");

    store.create_with_id(2, "bob".to_string());
    // the old snapshot is an independent copy
    assert_eq!(snapshot.len(), 1);
    // a later snapshot holds both sessions
    let later = store.list();
    assert_eq!(later.len(), 2);
    let mut names: Vec<(u128, String)> =
        later.iter().map(|p| (p.0, p.1.name.clone())).collect();
    names.sort();
    assert_eq!(names[0], (1, "alice".to_string()));
    assert_eq!(names[1], (2, "bob".to_string()));
}

#[test]
fn unknown_id_has_no_side_effects() {
    let mut store = SessionStore::new();
    store.create_with_id(1, "alice".to_string());
    let mut bus = EventBus::new();

    assert!(store.get(99).is_none());
    assert!(!store.contains(99));

    let r = submit_update(&store, &mut bus, 99, UpdateSessionEvent { update: 5 });
    assert_eq!(r, UpdateOutcome::NotFound);
    assert_eq!(bus.retained_len(), 0);

    let f = open_stream(&store, &mut bus, 99);
    assert!(f.is_none());
    assert_eq!(bus.live_subscribers(), 0);
}
