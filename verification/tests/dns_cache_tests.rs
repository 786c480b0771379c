use turbo_cdn::dns_cache::{DnsCache, IpAddress};

fn addr(n: u32) -> Vec<IpAddress> {
    vec![IpAddress::V4(n)]
}

#[test]
fn resolutions_are_cached_until_their_ttl() {
    let mut cache = DnsCache::new(1_000, 10, 0);
    assert_eq!(cache.lookup("a.example", 0), None);
    assert_eq!(cache.record_resolution("a.example", addr(1), 0), Some(addr(1)));
    assert_eq!(cache.lookup("a.example", 500), Some(addr(1)));
    let stats = cache.get_stats();
    assert_eq!(stats.cache_hits, 1);
    assert_eq!(stats.cache_misses, 1);
    assert_eq!(stats.time_saved_ms, 50);
    assert_eq!(cache.get_entry("a.example").unwrap().hit_count, 1);
    assert_eq!(cache.lookup("a.example", 1_000), None);
    assert!(!cache.contains("a.example"));
}

#[test]
fn empty_answers_and_failures() {
    let mut cache = DnsCache::with_defaults(0);
    assert_eq!(cache.record_resolution("b.example", Vec::new(), 0), None);
    assert!(cache.is_empty());
    assert_eq!(cache.get_stats().cache_misses, 0);
    cache.record_failure();
    assert_eq!(cache.get_stats().cache_misses, 1);
}

#[test]
fn a_full_cache_evicts_its_least_recently_used_quarter() {
    let mut cache = DnsCache::new(1_000_000, 4, 0);
    for (i, host) in ["a", "b", "c", "d"].iter().enumerate() {
        cache.insert(host, addr(i as u32), None, i as u64);
    }
    assert_eq!(cache.len(), 4);
    cache.insert("e", addr(9), None, 10);
    assert_eq!(cache.len(), 4);
    assert!(!cache.contains("a"));
    assert!(cache.contains("e"));
}

#[test]
fn expired_entries_are_swept() {
    let mut cache = DnsCache::new(1_000_000, 100, 0);
    cache.insert("short", addr(1), Some(10), 0);
    cache.insert("long", addr(2), None, 0);
    cache.cleanup_expired(100);
    assert!(!cache.contains("short"));
    assert!(cache.contains("long"));
    assert_eq!(cache.get_stats().expired_cleaned, 1);
    cache.clear();
    assert!(cache.is_empty());
}

#[test]
fn a_hit_protects_an_entry_from_eviction() {
    let mut cache = DnsCache::new(1_000_000, 4, 0);
    for (i, host) in ["a", "b", "c", "d"].iter().enumerate() {
        cache.insert(host, addr(i as u32), None, i as u64);
    }
    assert_eq!(cache.lookup("a", 5), Some(addr(0)));
    cache.insert("e", addr(9), None, 10);
    assert!(cache.contains("a"));
    assert!(!cache.contains("b"));
    assert_eq!(cache.len(), 4);
}

#[test]
fn earlier_resolutions_stay_answered() {
    let mut cache = DnsCache::new(1_000, 10, 0);
    cache.record_resolution("a.example", addr(1), 0);
    cache.record_resolution("b.example", addr(2), 10);
    cache.record_resolution("c.example", addr(3), 20);
    assert_eq!(cache.lookup("a.example", 30), Some(addr(1)));
    assert_eq!(cache.lookup("b.example", 30), Some(addr(2)));
    assert_eq!(cache.len(), 3);
}
