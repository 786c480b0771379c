use std::time::Duration;
use turbo_cdn::download_options::DownloadOptions;

#[test]
fn options_start_empty() {
    let o = DownloadOptions::new();
    assert_eq!(o.max_concurrent_chunks, None);
    assert_eq!(o.chunk_size, None);
    assert!(!o.enable_resume);
    assert!(o.custom_headers.is_none());
    assert_eq!(o.timeout_override, None);
    assert!(!o.verify_integrity);
    assert_eq!(o.expected_size, None);
}

#[test]
fn options_builders_set_fields() {
    let o = DownloadOptions::new()
        .with_max_concurrent_chunks(8)
        .with_chunk_size(1024)
        .with_resume(true)
        .with_timeout(Duration::from_secs(30))
        .with_integrity_verification(true)
        .with_expected_size(4096);
    assert_eq!(o.max_concurrent_chunks, Some(8));
    assert_eq!(o.chunk_size, Some(1024));
    assert!(o.enable_resume);
    assert_eq!(o.timeout_override, Some(Duration::from_secs(30)));
    assert!(o.verify_integrity);
    assert_eq!(o.expected_size, Some(4096));
}

#[test]
fn options_header_added_then_replaced() {
    let o = DownloadOptions::new()
        .with_header("Accept", "text/plain")
        .with_header("X-Token", "a")
        .with_header("Accept", "application/json");
    let headers = o.custom_headers.unwrap();
    assert_eq!(headers.len(), 2);
    assert_eq!(headers[0], ("Accept".to_string(), "application/json".to_string()));
    assert_eq!(headers[1], ("X-Token".to_string(), "a".to_string()));
}

#[test]
fn options_header_leaves_other_fields() {
    let o = DownloadOptions::new().with_chunk_size(7).with_header("A", "b");
    assert_eq!(o.chunk_size, Some(7));
    assert_eq!(o.custom_headers.unwrap().len(), 1);
}
