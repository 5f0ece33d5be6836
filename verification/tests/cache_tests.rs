use nautilus::cache::TtlCache;

#[test]
fn fresh_entry_is_served_within_ttl() {
    let mut cache: TtlCache<String> = TtlCache::new(300, 600);
    cache.store("issuer.example", "keys-v1".to_string(), 1000);
    assert_eq!(cache.peek("issuer.example", 1000), Some(&"keys-v1".to_string()));
    assert_eq!(cache.peek("issuer.example", 1299), Some(&"keys-v1".to_string()));
}

#[test]
fn entry_is_never_served_past_its_ttl() {
    let mut cache: TtlCache<String> = TtlCache::new(300, 600);
    cache.store("issuer.example", "keys-v1".to_string(), 1000);
    assert_eq!(cache.peek("issuer.example", 1300), None);
    assert_eq!(cache.peek("issuer.example", 5000), None);
}

#[test]
fn missing_key_is_a_miss() {
    let cache: TtlCache<String> = TtlCache::new(300, 600);
    assert_eq!(cache.peek("issuer.example", 1000), None);
}

#[test]
fn idle_entry_is_not_served_even_within_ttl() {
    let mut cache: TtlCache<String> = TtlCache::new(10_000, 50);
    cache.store("issuer.example", "keys-v1".to_string(), 100);
    assert_eq!(cache.peek("issuer.example", 150), Some(&"keys-v1".to_string()));
    assert_eq!(cache.peek("issuer.example", 151), None);
}

#[test]
fn a_use_pushes_the_idle_deadline_out() {
    let mut cache: TtlCache<String> = TtlCache::new(10_000, 50);
    cache.store("issuer.example", "keys-v1".to_string(), 100);
    cache.touch("issuer.example", 140);
    assert_eq!(cache.peek("issuer.example", 190), Some(&"keys-v1".to_string()));
    assert_eq!(cache.peek("issuer.example", 191), None);
}

#[test]
fn a_refresh_replaces_the_entry_wholesale() {
    let mut cache: TtlCache<String> = TtlCache::new(300, 600);
    cache.store("issuer.example", "keys-v1".to_string(), 1000);
    cache.store("issuer.example", "keys-v2".to_string(), 1400);
    assert_eq!(cache.peek("issuer.example", 1400), Some(&"keys-v2".to_string()));
    assert_eq!(cache.len(), 1);
}

#[test]
fn issuers_are_cached_independently() {
    let mut cache: TtlCache<String> = TtlCache::new(300, 600);
    cache.store("a.example", "keys-a".to_string(), 1000);
    cache.store("b.example", "keys-b".to_string(), 1200);
    assert_eq!(cache.peek("a.example", 1250), Some(&"keys-a".to_string()));
    assert_eq!(cache.peek("b.example", 1250), Some(&"keys-b".to_string()));
    assert_eq!(cache.len(), 2);
}

#[test]
fn eviction_drops_dead_entries_and_keeps_live_ones() {
    let mut cache: TtlCache<String> = TtlCache::new(300, 600);
    cache.store("a.example", "keys-a".to_string(), 1000);
    cache.store("b.example", "keys-b".to_string(), 1400);
    cache.evict_expired(1350);
    assert_eq!(cache.len(), 1);
    assert_eq!(cache.peek("a.example", 1350), None);
    assert_eq!(cache.peek("b.example", 1450), Some(&"keys-b".to_string()));
}
