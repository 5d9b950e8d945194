//! Behaviour of the generic read-through engine, driven the way the
//! application drives it: fast-path lookup, first-touch snapshot load,
//! slow-path re-check, loader run, commit.

use wreport::store::{CacheEntry, CacheStore};

fn key(s: &str) -> String {
    String::from(s)
}

/// A second call right after a fill is served from the cache, so the
/// loader runs exactly once.
#[test]
fn loader_runs_once_for_fresh_entry() {
    let mut store: CacheStore<u64> = CacheStore::new(Some(600), true);
    let mut loads = 0;

    // First call: miss, loader, commit.
    assert!(store.lookup(&key("k"), 1000).is_none());
    if store.needs_refresh(&key("k"), 1000) {
        loads += 1;
        store.insert(key("k"), 7, 1000);
    }
    // Second call, immediately after: served from the cache.
    match store.lookup(&key("k"), 1001) {
        Some(v) => assert_eq!(*v, 7),
        None => panic!("expected a hit right after the fill"),
    }
    assert_eq!(loads, 1);
}

/// An entry inserted at T is a hit at T+599 and stale at T+601; the
/// refresh stores a new timestamp.
#[test]
fn ttl_hit_at_599_refresh_at_601() {
    let mut store: CacheStore<u64> = CacheStore::new(Some(600), true);
    store.insert(key("k"), 7, 1000);

    assert_eq!(store.lookup(&key("k"), 1599).copied(), Some(7));
    assert!(store.lookup(&key("k"), 1601).is_none());
    assert!(store.needs_refresh(&key("k"), 1601));

    // The loader path runs again and replaces the entry.
    store.insert(key("k"), 8, 1601);
    assert_eq!(store.stored_at(&key("k")), Some(1601));
    assert_eq!(store.lookup(&key("k"), 1601).copied(), Some(8));
}

/// Without a time-to-live an entry never goes stale, however much time
/// passes.
#[test]
fn permanent_store_never_expires() {
    let mut store: CacheStore<u64> = CacheStore::new(None, false);
    store.insert(key("k"), 7, 5);
    assert_eq!(store.lookup(&key("k"), u64::MAX).copied(), Some(7));
    assert!(!store.needs_refresh(&key("k"), u64::MAX));
}

/// N callers racing on one key produce one loader run: the application
/// holds the instance's exclusive lock across the slow path, so holders
/// run one at a time, and every holder after the first finds the fresh
/// entry in its re-check. (The same lock also serializes concurrent
/// misses on *different* keys of one instance — a stronger guarantee that
/// this design accepts deliberately, trading concurrency for one
/// fetch-and-persist in flight per instance.)
#[test]
fn concurrent_callers_one_load() {
    let mut store: CacheStore<u64> = CacheStore::new(Some(600), true);
    let t = 100;
    // All three callers miss on the fast path before any completes.
    assert!(store.lookup(&key("k"), t).is_none());
    assert!(store.lookup(&key("k"), t).is_none());
    assert!(store.lookup(&key("k"), t).is_none());

    // They then enter the slow path one at a time.
    let mut loads = 0;
    for i in 0..3u64 {
        if store.needs_refresh(&key("k"), t + i) {
            loads += 1;
            store.insert(key("k"), 7, t + i);
        }
    }
    assert_eq!(loads, 1);
    assert_eq!(store.stored_at(&key("k")), Some(t));
}

/// Entries written out and absorbed after a restart reproduce the prior
/// values without another loader run.
#[test]
fn snapshot_restart_reproduces_entries() {
    let mut store: CacheStore<u64> = CacheStore::new(Some(600), false);
    store.insert(key("a"), 1, 1000);
    store.insert(key("b"), 2, 1100);

    let persisted: Vec<(String, CacheEntry<u64>)> = store
        .entries()
        .iter()
        .map(|(k, e)| (k.clone(), CacheEntry { value: e.value, inserted_at: e.inserted_at }))
        .collect();

    // A new process: an empty store, first touch absorbs the snapshot.
    let mut restarted: CacheStore<u64> = CacheStore::new(Some(600), false);
    assert!(!restarted.is_loaded());
    restarted.absorb_snapshot(persisted);
    assert!(restarted.is_loaded());

    assert_eq!(restarted.lookup(&key("a"), 1500).copied(), Some(1));
    assert_eq!(restarted.lookup(&key("b"), 1500).copied(), Some(2));
    assert!(!restarted.needs_refresh(&key("a"), 1500));
    // The stored timestamps survived too.
    assert_eq!(restarted.stored_at(&key("a")), Some(1000));
}

/// A sweeping insert drops every entry that expired by then; a
/// non-sweeping insert leaves them in place.
#[test]
fn sweep_on_insert_drops_expired_entries() {
    let mut sweeping: CacheStore<u64> = CacheStore::new(Some(600), true);
    sweeping.insert(key("old"), 1, 1000);
    sweeping.insert(key("new"), 2, 1700);
    // "old" expired at 1600; the insert at 1700 swept it away.
    assert!(sweeping.stored_at(&key("old")).is_none());
    assert_eq!(sweeping.stored_at(&key("new")), Some(1700));

    let mut keeping: CacheStore<u64> = CacheStore::new(Some(600), false);
    keeping.insert(key("old"), 1, 1000);
    keeping.insert(key("new"), 2, 1700);
    // Still present, though no longer served.
    assert_eq!(keeping.stored_at(&key("old")), Some(1000));
    assert!(keeping.lookup(&key("old"), 1700).is_none());
}

/// A replaced entry supersedes its predecessor under the same key.
#[test]
fn insert_replaces_same_key() {
    let mut store: CacheStore<u64> = CacheStore::new(None, false);
    store.insert(key("k"), 1, 10);
    store.insert(key("k"), 2, 20);
    assert_eq!(store.lookup(&key("k"), 30).copied(), Some(2));
    assert_eq!(store.entries().len(), 1);
}

/// A failed loader leaves the map exactly as it was: nothing negative is
/// cached, and the next call retries in full.
#[test]
fn no_negative_caching() {
    let mut store: CacheStore<u64> = CacheStore::new(Some(600), true);
    // A loader failure commits nothing.
    assert!(store.needs_refresh(&key("k"), 100));
    assert!(store.entries().is_empty());
    // The next call still wants a refresh.
    assert!(store.needs_refresh(&key("k"), 101));
}

/// Absorbing a snapshot with a repeated key keeps the later pair, as a
/// whole-map read does.
#[test]
fn absorb_snapshot_later_duplicate_wins() {
    let entries = vec![
        (String::from("k"), CacheEntry { value: 1u64, inserted_at: 10 }),
        (String::from("k"), CacheEntry { value: 2u64, inserted_at: 20 }),
    ];
    let mut store: CacheStore<u64> = CacheStore::new(None, false);
    store.absorb_snapshot(entries);
    assert_eq!(store.lookup(&String::from("k"), 30).copied(), Some(2));
    assert_eq!(store.entries().len(), 1);
}
