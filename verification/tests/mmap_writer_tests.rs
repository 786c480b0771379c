use turbo_cdn::error::TurboCdnError;
use turbo_cdn::mmap_writer::{check_write_bounds, integrity_holds, optimal_mmap_chunk_size, should_use_mmap};

#[test]
fn test_optimal_chunk_size() {
    assert_eq!(optimal_mmap_chunk_size(500_000, None), 256 * 1024);
    assert_eq!(optimal_mmap_chunk_size(5_000_000, None), 1024 * 1024);
    assert_eq!(optimal_mmap_chunk_size(50_000_000, None), 4 * 1024 * 1024);
    assert_eq!(optimal_mmap_chunk_size(500_000_000, None), 64 * 1024 * 1024);
}

#[test]
fn test_should_use_mmap() {
    assert!(!should_use_mmap(1_000_000, Some(10_000_000)));
    assert!(should_use_mmap(50_000_000, Some(10_000_000)));
    assert!(!should_use_mmap(5_000_000_000, Some(10_000_000)));
}

#[test]
fn chunk_size_from_available_memory_is_clamped() {
    assert_eq!(optimal_mmap_chunk_size(0, Some(8 * 1024)), 1024 * 1024);
    assert_eq!(optimal_mmap_chunk_size(0, Some(80 * 1024 * 1024)), 10 * 1024 * 1024);
    assert_eq!(optimal_mmap_chunk_size(0, Some(8 * 1024 * 1024 * 1024)), 64 * 1024 * 1024);
}

#[test]
fn default_mmap_threshold_is_ten_mib() {
    assert!(!should_use_mmap(10 * 1024 * 1024, None));
    assert!(should_use_mmap(10 * 1024 * 1024 + 1, None));
}

#[test]
fn writes_past_the_mapping_are_refused() {
    assert_eq!(check_write_bounds(10, 5, 20).unwrap(), (10, 15));
    match check_write_bounds(10, 20, 20) {
        Err(TurboCdnError::Internal { message }) => {
            assert_eq!(message, "IO error: Write would exceed file bounds: 30 > 20")
        }
        other => panic!("unexpected {:?}", other),
    }
    assert!(integrity_holds(5, 5));
    assert!(!integrity_holds(5, 6));
}
