use std::collections::HashMap;

use beatmap_mirror::bulk::{FetchOutcome, UpstreamError};
use beatmap_mirror::entity::Entity;
use beatmap_mirror::resolver::{after_create, after_lookup, after_reread, after_upstream, ResolveError, ResolveStep};
use beatmap_mirror::store::StoreError;

/// A store with the per-id semantics of the document store, counting
/// successful creates.
struct TestStore {
    docs: HashMap<u32, Entity<String>>,
    creates: usize,
}

impl TestStore {
    fn new() -> Self {
        TestStore { docs: HashMap::new(), creates: 0 }
    }

    fn get(&self, id: u32) -> Option<Entity<String>> {
        self.docs.get(&id).cloned()
    }

    fn create(&mut self, id: u32, e: Entity<String>) -> Result<(), StoreError> {
        if self.docs.contains_key(&id) {
            return Err(StoreError::Conflict);
        }
        self.docs.insert(id, e);
        self.creates += 1;
        Ok(())
    }
}

fn run(
    store: &mut TestStore,
    id: u32,
    first: ResolveStep<String>,
    upstream: FetchOutcome<String>,
    now: i64,
) -> Result<Option<Entity<String>>, ResolveError> {
    let mut step = first;
    let mut upstream = Some(upstream);
    loop {
        step = match step {
            ResolveStep::FetchUpstream => after_upstream(upstream.take().unwrap(), now),
            ResolveStep::Create(e) => {
                let r = store.create(id, e.clone());
                after_create(e, r)
            }
            ResolveStep::Reread => after_reread(store.get(id)),
            ResolveStep::Done(x) => return Ok(x),
            ResolveStep::Fail(err) => return Err(err),
        }
    }
}

fn resolve(store: &mut TestStore, id: u32, upstream: FetchOutcome<String>, now: i64) -> Result<Option<Entity<String>>, ResolveError> {
    let first = after_lookup(store.get(id));
    run(store, id, first, upstream, now)
}

#[test]
fn sequential_lookups_create_once() {
    let mut store = TestStore::new();
    let a = resolve(&mut store, 7, FetchOutcome::Found("set 7".to_string()), 100).unwrap().unwrap();
    let b = resolve(&mut store, 7, FetchOutcome::Found("set 7, later".to_string()), 200).unwrap().unwrap();
    assert_eq!(store.creates, 1);
    assert_eq!(a.data, "set 7");
    assert_eq!(b.data, a.data);
    assert_eq!(b.created_at, 100);
    assert_eq!(b.last_checked, 100);
    assert!(!b.crawled);
}

#[test]
fn racing_lookups_return_the_winner() {
    let mut store = TestStore::new();
    // Both lookups miss before either creates.
    let first_a = after_lookup(store.get(9));
    let first_b = after_lookup(store.get(9));
    let a = run(&mut store, 9, first_a, FetchOutcome::Found("a".to_string()), 100).unwrap().unwrap();
    let b = run(&mut store, 9, first_b, FetchOutcome::Found("b".to_string()), 150).unwrap().unwrap();
    assert_eq!(store.creates, 1);
    assert_eq!(a.data, "a");
    assert_eq!(b.data, "a");
    assert_eq!(b.created_at, 100);
}

#[test]
fn store_hit_is_served_without_upstream() {
    let mut store = TestStore::new();
    let old = Entity { data: "cached".to_string(), created_at: 1, updated_at: 1, last_checked: 1, crawled: true };
    store.docs.insert(3, old);
    match after_lookup(store.get(3)) {
        ResolveStep::Done(Some(e)) => {
            assert_eq!(e.data, "cached");
            assert_eq!(e.last_checked, 1);
        }
        _ => panic!("expected a hit"),
    }
}

#[test]
fn unknown_id_is_not_stored() {
    let mut store = TestStore::new();
    let r = resolve(&mut store, 5, FetchOutcome::NotFound, 100).unwrap();
    assert!(r.is_none());
    assert!(store.docs.is_empty());
    assert_eq!(store.creates, 0);
}

#[test]
fn upstream_failure_is_an_error() {
    let mut store = TestStore::new();
    let r = resolve(&mut store, 5, FetchOutcome::Failed(UpstreamError { message: "503".to_string() }), 100);
    match r {
        Err(ResolveError::Upstream(e)) => assert_eq!(e.message, "503"),
        _ => panic!("expected an upstream error"),
    }
    assert!(store.docs.is_empty());
}

#[test]
fn create_failure_is_an_error() {
    let e = Entity { data: 1u32, created_at: 0, updated_at: 0, last_checked: 0, crawled: false };
    match after_create(e, Err(StoreError::Failed { status: 500 })) {
        ResolveStep::Fail(ResolveError::Store(StoreError::Failed { status })) => assert_eq!(status, 500),
        _ => panic!("expected a store error"),
    }
}

#[test]
fn conflict_not_yet_visible_is_reported() {
    match after_reread::<u32>(None) {
        ResolveStep::Fail(ResolveError::Store(StoreError::Conflict)) => {}
        _ => panic!("expected a conflict"),
    }
}
