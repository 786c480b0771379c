use turbo_cdn::cache::{CacheEntry, CacheLookup, CacheManager, MetadataStore};
use turbo_cdn::config::sections::CacheConfig;

fn config(max_size: u64, compression: bool) -> CacheConfig {
    CacheConfig {
        enabled: true,
        cache_dir: "/tmp/turbo-cache".to_string(),
        max_size,
        ttl: 10,
        compression,
        cleanup_interval: 60,
    }
}

fn entry(key: &str, size: u64, created_at: u64, last_accessed: u64) -> CacheEntry {
    CacheEntry {
        key: key.to_string(),
        file_path: format!("/tmp/{key}.cache"),
        original_url: "https://example.com".to_string(),
        file_size: size,
        checksum: None,
        content_type: None,
        created_at,
        last_accessed,
        access_count: 1,
        compressed: false,
        ttl: 10_000,
    }
}

fn manager(max_size: u64, entries: Vec<CacheEntry>) -> CacheManager {
    let mut store = MetadataStore::new("/tmp/turbo-cache");
    for e in entries {
        store.add_entry(e);
    }
    CacheManager::with_store(config(max_size, true), store, 0)
}

#[test]
fn keys_and_checksums_are_sha256() {
    let m = manager(100, vec![]);
    assert_eq!(
        CacheManager::calculate_checksum(b"abc"),
        "ba7816bf8f01cfea414140de5dae2223b00361a396177a9cb410ff61f20015ad"
    );
    assert_eq!(
        m.generate_key("owner/repo", "v1.0.0", "app.tar.gz"),
        "0e9b9a6950aad88990d11895c2d11d28b42a3594baedfce6ee6f06c1c3bb69d5"
    );
}

#[test]
fn lookups_hit_miss_and_expire() {
    let mut m = manager(100, vec![entry("a", 10, 0, 0)]);
    match m.lookup("a", true, 5_000) {
        CacheLookup::Hit(e) => assert_eq!(e.key, "a"),
        other => panic!("unexpected {:?}", other),
    }
    match m.lookup("a", true, 10_001) {
        CacheLookup::Expired(e) => assert_eq!(e.key, "a"),
        other => panic!("unexpected {:?}", other),
    }
    assert!(matches!(m.lookup("b", true, 1), CacheLookup::Miss));
    let stats = m.get_stats();
    assert_eq!(stats.hit_count, 1);
    assert_eq!(stats.miss_count, 1);
    assert!(matches!(m.lookup("a", false, 1), CacheLookup::Miss));
    assert_eq!(m.get_stats().total_entries, 0);
}

#[test]
fn least_recently_used_entries_are_evicted_first() {
    let mut m = manager(100, vec![entry("old", 40, 0, 1), entry("new", 40, 0, 9), entry("mid", 40, 0, 5)]);
    assert_eq!(m.get_total_size(), 120);
    let (count, freed, removed) = m.remove_lru_entries(50);
    assert_eq!(count, 2);
    assert_eq!(freed, 80);
    assert_eq!(removed[0].key, "old");
    assert_eq!(removed[1].key, "mid");
    assert_eq!(m.get_total_size(), 40);
    assert_eq!(m.get_stats().eviction_count, 2);
}

#[test]
fn storing_makes_room_and_cleanup_drops_expired_then_oldest() {
    let mut m = manager(100, vec![entry("a", 60, 0, 1), entry("b", 30, 0, 2)]);
    let evicted = m.prepare_store(20).unwrap();
    assert_eq!(evicted.len(), 1);
    assert_eq!(evicted[0].key, "a");

    let mut m = manager(50, vec![entry("x", 30, 0, 3), entry("y", 30, 20_000, 4), entry("z", 10, 20_000, 1)]);
    let dropped = m.cleanup(25_000);
    assert_eq!(dropped[0].key, "x");
    assert_eq!(m.get_total_size(), 40);
    assert_eq!(m.get_stats().last_cleanup, 25_000);
}

#[test]
fn disabled_cache_refuses_to_store() {
    let mut cfg = config(100, false);
    cfg.enabled = false;
    let mut m = CacheManager::new_disabled(cfg, 0);
    assert!(m.prepare_store(1).is_err());
    assert!(matches!(m.lookup("a", true, 0), CacheLookup::Miss));
}

#[test]
fn stored_data_reads_back() {
    let mut m = manager(1 << 20, vec![]);
    let data: Vec<u8> = std::iter::repeat(b"turbo-cdn ".iter().copied()).take(500).flatten().collect();
    let (file, compressed) = m.encode_for_storage(&data);
    assert!(compressed);
    assert!(file.len() < data.len());
    assert_ne!(file, data);
    let stored = m.record_store("k", "/tmp/k.cache".to_string(), "https://u", &data, None, compressed, 7);
    assert_eq!(stored.file_size, data.len() as u64);
    assert_eq!(stored.checksum, Some(CacheManager::calculate_checksum(&data)));
    assert_eq!(stored.ttl, 10_000);
    assert_eq!(m.read(&stored, file).unwrap(), data);

    let small = b"tiny".to_vec();
    let (file, compressed) = m.encode_for_storage(&small);
    assert!(!compressed);
    assert_eq!(file, small);
    assert!(m.decompress_data(b"not gzip").is_err());
}

#[test]
fn cache_file_path_ends_with_key_file() {
    let m = manager(100, vec![]);
    let p = m.cache_file_path("abc123");
    assert!(p.ends_with("abc123.cache"));
    assert!(p.len() > "abc123.cache".len());
}

#[test]
fn compress_data_gives_a_stream_that_decodes_back() {
    let m = manager(1 << 20, vec![]);
    let data = b"hello hello hello hello".to_vec();
    let z = m.compress_data(&data).unwrap();
    assert_ne!(z, data);
    assert_eq!(m.decompress_data(&z).unwrap(), data);
}

#[test]
fn disabled_cache_reports_nothing_stored() {
    let mut cfg = config(100, false);
    cfg.enabled = false;
    let m = CacheManager::new_disabled(cfg, 5);
    let s = m.get_stats();
    assert_eq!(s.total_entries, 0);
    assert_eq!(s.total_size, 0);
    assert_eq!(s.last_cleanup, 5);
}
