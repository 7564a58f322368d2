//! Tests of the time-boxed ephemeral caches.

use raidprotect::expiring::ExpiringCache;

#[test]
fn get_ignores_expired_entries_before_the_sweep() {
    let mut cache: ExpiringCache<String> = ExpiringCache::new();
    cache.insert(1, 100, "first".to_string());
    assert_eq!(cache.get(1, 50), Some(&"first".to_string()));
    // At the deadline the entry no longer exists for readers, even though
    // the sweeper has not run yet.
    assert_eq!(cache.get(1, 100), None);
    assert_eq!(cache.len(), 1);
}

#[test]
fn insert_replaces_the_previous_entry_of_the_key() {
    let mut cache: ExpiringCache<u32> = ExpiringCache::new();
    cache.insert(1, 100, 7);
    cache.insert(1, 200, 8);
    assert_eq!(cache.len(), 1);
    assert_eq!(cache.get(1, 150), Some(&8));
}

#[test]
fn sweep_evicts_exactly_the_expired_entries() {
    let mut cache: ExpiringCache<u32> = ExpiringCache::new();
    cache.insert(1, 100, 1);
    cache.insert(2, 200, 2);
    cache.insert(3, 300, 3);
    cache.sweep(200);
    // Entries 1 and 2 have passed their deadline; entry 3 survives.
    assert_eq!(cache.len(), 1);
    assert_eq!(cache.get(3, 200), Some(&3));
    assert_eq!(cache.get(2, 150), None);
    // Sweeping again at the same instant changes nothing.
    cache.sweep(200);
    assert_eq!(cache.len(), 1);
}

#[test]
fn remove_drops_only_the_given_key() {
    let mut cache: ExpiringCache<u32> = ExpiringCache::new();
    cache.insert(1, 100, 1);
    cache.insert(2, 100, 2);
    cache.remove(1);
    assert_eq!(cache.len(), 1);
    assert_eq!(cache.get(1, 0), None);
    assert_eq!(cache.get(2, 0), Some(&2));
    // Removing an absent key is a no-op.
    cache.remove(9);
    assert_eq!(cache.len(), 1);
}
