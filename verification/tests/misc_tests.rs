use std::time::Duration;
use turbo_cdn::adaptive_concurrency::{backoff_base_millis, ConcurrencyLevel};
use turbo_cdn::adaptive_speed_controller::{blend_chunk_size, clamp_concurrency, NetworkCondition};
use turbo_cdn::config::TurboCdnConfig;
use turbo_cdn::error::TurboCdnError;
use turbo_cdn::http_client::HttpResponse;
use turbo_cdn::http_client_manager::RequestConfig;
use turbo_cdn::server_quality_scorer::failures_warrant_failover;
use turbo_cdn::url_parts::extract_filename_from_url;

#[test]
fn file_names_come_from_the_url_path() {
    assert_eq!(extract_filename_from_url("https://example.com/a/b/tool.zip").unwrap(), "tool.zip");
    assert_eq!(extract_filename_from_url("https://example.com/a/b/").unwrap(), "download");
    assert_eq!(extract_filename_from_url("https://example.com").unwrap(), "download");
    match extract_filename_from_url("no scheme") {
        Err(TurboCdnError::Config { message }) => assert!(message.starts_with("Invalid URL: ")),
        other => panic!("unexpected {:?}", other),
    }
}

#[test]
fn network_conditions_recommend_settings() {
    assert_eq!(NetworkCondition::Excellent.recommended_concurrency(), 64);
    assert_eq!(NetworkCondition::VeryPoor.recommended_concurrency(), 4);
    assert_eq!(NetworkCondition::Good.recommended_chunk_size(), 4 * 1024 * 1024);
    assert_eq!(NetworkCondition::VeryPoor.recommended_chunk_size(), 512 * 1024);
    assert_eq!(blend_chunk_size(6 * 1024 * 1024, NetworkCondition::Fair), 4 * 1024 * 1024);
    assert_eq!(blend_chunk_size(0, NetworkCondition::VeryPoor), 256 * 1024);
    assert_eq!(blend_chunk_size(64 * 1024 * 1024, NetworkCondition::Excellent), 16 * 1024 * 1024);
    assert_eq!(clamp_concurrency(1), 4);
    assert_eq!(clamp_concurrency(500), 128);
    assert_eq!(clamp_concurrency(20), 20);
}

#[test]
fn concurrency_moves_within_its_bounds() {
    let mut level = ConcurrencyLevel::from_config(&TurboCdnConfig::default());
    assert_eq!(level.current, 32);
    assert_eq!(level.min_concurrency, 8);
    assert_eq!(level.max_concurrency, 64);
    level.increase();
    assert_eq!(level.current, 33);
    let mut low = ConcurrencyLevel { current: 8, min_concurrency: 8, max_concurrency: 9 };
    low.decrease();
    assert_eq!(low.current, 8);
    low.increase();
    low.increase();
    assert_eq!(low.current, 9);
    assert_eq!(backoff_base_millis(0), 100);
    assert_eq!(backoff_base_millis(3), 800);
    assert_eq!(backoff_base_millis(20), 6400);
}

#[test]
fn http_types_and_failover() {
    let r = HttpResponse { status: 204, headers: Default::default(), body: Vec::new() };
    assert_eq!(r.status, 204);
    let c = RequestConfig::default();
    assert_eq!(c.method, "GET");
    assert_eq!(c.timeout, Duration::from_secs(30));
    assert_eq!(c.max_redirects, 10);
    assert!(failures_warrant_failover(3, 3));
    assert!(!failures_warrant_failover(2, 3));
}
