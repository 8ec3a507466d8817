use rustio_admin::feature_flags::{invalidate_cache, FlagCache, FLAG_CACHE_TTL_MS, FLAG_CACHE_TTL_SECS};
use std::time::Duration;

#[test]
fn flag_cache_ttl_is_60_seconds() {
    assert_eq!(Duration::from_secs(FLAG_CACHE_TTL_SECS), Duration::from_secs(60));
    assert_eq!(Duration::from_millis(FLAG_CACHE_TTL_MS), Duration::from_secs(60));
}

#[test]
fn invalidate_cache_clears_every_entry() {
    let mut cache = FlagCache::new();
    cache.remember("key_a", true, 0);
    cache.remember("key_b", false, 0);
    assert_eq!(cache.cached("key_a", 1), Some(true));
    assert_eq!(cache.cached("key_b", 1), Some(false));
    invalidate_cache(&mut cache);
    assert!(cache.cached("key_a", 1).is_none());
    assert!(cache.cached("key_b", 1).is_none());
}

#[test]
fn cached_answer_expires_after_ttl_and_is_per_key() {
    let mut cache = FlagCache::new();
    assert_eq!(cache.cached("f", 0), None);
    cache.remember("f", true, 1_000);
    assert_eq!(cache.cached("f", 1_000), Some(true));
    assert_eq!(cache.cached("f", 60_999), Some(true));
    assert_eq!(cache.cached("f", 61_000), None);
    assert_eq!(cache.cached("g", 2_000), None);
    cache.remember("g", false, 2_000);
    cache.remember("f", false, 70_000);
    assert_eq!(cache.cached("f", 70_001), Some(false));
    assert_eq!(cache.cached("g", 2_001), Some(false));
}

#[test]
fn settled_reads_are_remembered_and_missing_rows_are_off() {
    let mut c = FlagCache::new();
    assert!(c.settle_read("beta", Some(true), 1_000));
    assert_eq!(c.cached("beta", 1_001), Some(true));
    assert!(!c.settle_read("gone", None, 1_000));
    assert_eq!(c.cached("gone", 1_001), Some(false));
    assert!(c.settle_read("late", Some(true), u64::MAX - 1));
    assert_eq!(c.cached("late", 0), None);
}
