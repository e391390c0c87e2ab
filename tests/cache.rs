use kurz::Cache;

/// Checks we can insert a ton of items and then prune it automatically
#[test]
fn inserts_prune() {
    let mut cache = Cache::new(Some(1000));
    let mut first_prune: Option<(i32, usize)> = None;
    for i in 0..500000 {
        let before = cache.inner.len();
        cache.insert(i, i * 2);
        let after = cache.inner.len();
        // never more than one entry past the pruning size of 1200
        assert!(after <= 1201);
        // one insert adds at most one entry and prunes at most a fifth of `max`
        assert!(after <= before + 1);
        assert!(before + 1 - after <= 200);
        assert!(cache.old.len() <= 200);
        if after < before + 1 && first_prune.is_none() {
            first_prune = Some((i, after));
        }
    }
    // the mapping first holds 1201 entries after key 1200; the next insert
    // prunes the 200 keys listed first and then writes its own
    assert_eq!(first_prune, Some((1201, 1002)));
    assert_eq!(cache.max, Some(1000));
    assert_eq!(cache.inner.len(), 1200);
    assert_eq!(cache.inner.get(&499999), Some(&999998));
    for (k, v) in cache.inner.iter() {
        assert_eq!(*v, 2 * *k);
    }
}

#[test]
fn overwrite_returns_previous_value() {
    let mut cache: Cache<u32, &str> = Cache::new(Some(20));
    assert_eq!(cache.insert(7, "a"), None);
    assert_eq!(cache.insert(8, "b"), None);
    assert_eq!(cache.insert(7, "c"), Some("a"));
    assert_eq!(cache.inner.len(), 2);
    assert_eq!(cache.inner.get(&7), Some(&"c"));
    // a key inserted twice in one generation is listed twice, not more
    assert_eq!(cache.old, vec![7, 8, 7]);
}

#[test]
fn overwrite_of_listed_key_at_prune_returns_nothing() {
    // max 5: a generation lists one key, pruning starts past 6 entries
    let mut cache: Cache<u32, u32> = Cache::new(Some(5));
    for k in 0..7 {
        cache.insert(k, k);
    }
    assert_eq!(cache.old, vec![0]);
    assert_eq!(cache.inner.len(), 7);
    // the prune removes key 0 before it is written again, and the new
    // generation lists it first
    assert_eq!(cache.insert(0, 100), None);
    assert_eq!(cache.inner.len(), 7);
    assert_eq!(cache.old, vec![0]);
    assert_eq!(cache.inner.get(&0), Some(&100));
}

#[test]
fn unbounded_cache_never_prunes() {
    let mut cache: Cache<u64, u64> = Cache::new(None);
    for k in 0..5000 {
        cache.insert(k, k + 1);
    }
    assert_eq!(cache.inner.len(), 5000);
    assert!(cache.old.is_empty());
    assert_eq!(cache.max, None);
}

#[test]
fn old_list_is_a_fifth_rounded_up() {
    // a fifth of 7 is 1.4: two keys are listed per generation, pruning starts past 9
    let mut cache: Cache<u64, u64> = Cache::new(Some(7));
    for k in 0..10 {
        cache.insert(k, k);
    }
    assert_eq!(cache.old, vec![0, 1]);
    assert_eq!(cache.inner.len(), 10);
    assert_eq!(cache.insert(10, 10), None);
    assert_eq!(cache.inner.len(), 9);
    assert_eq!(cache.old, vec![10]);
    assert!(!cache.inner.contains_key(&0));
    assert!(!cache.inner.contains_key(&1));
}

#[test]
fn zero_max_keeps_every_key() {
    let mut cache: Cache<u8, u8> = Cache::new(Some(0));
    for k in 0..20 {
        cache.insert(k, k);
    }
    assert_eq!(cache.inner.len(), 20);
    assert!(cache.old.is_empty());
}

#[test]
fn small_cache_stays_bounded() {
    // max 5: pruning size 6, so never more than 7 entries
    let mut cache: Cache<u64, u64> = Cache::new(Some(5));
    for k in 0..1000 {
        cache.insert(k, k);
        assert!(cache.inner.len() <= 7);
        assert!(cache.old.len() <= 1);
    }
}

#[test]
fn repeated_key_then_fresh_keys_stay_bounded() {
    let mut cache: Cache<u64, u64> = Cache::new(Some(10));
    for _ in 0..50 {
        cache.insert(0, 0);
    }
    // the whole generation lists key 0
    assert_eq!(cache.old, vec![0, 0]);
    for k in 1..500 {
        cache.insert(k, k);
        assert!(cache.inner.len() <= 13);
    }
}
