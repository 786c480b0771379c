use turbo_cdn::error::TurboCdnError;

#[test]
fn status_codes_map_to_errors() {
    match TurboCdnError::from_status_code(404, "https://x") {
        TurboCdnError::HttpStatus { status_code, message, url } => {
            assert_eq!(status_code, 404);
            assert_eq!(message, "Not Found");
            assert_eq!(url, "https://x");
        }
        other => panic!("unexpected {:?}", other),
    }
    match TurboCdnError::from_status_code(429, "https://x") {
        TurboCdnError::RateLimit { message } => assert_eq!(message, "Rate limited by https://x"),
        other => panic!("unexpected {:?}", other),
    }
    match TurboCdnError::from_status_code(502, "https://x") {
        TurboCdnError::ServerError { status_code, message, .. } => {
            assert_eq!(status_code, 502);
            assert_eq!(message, "Bad Gateway");
        }
        other => panic!("unexpected {:?}", other),
    }
}

#[test]
fn retry_and_mirror_classification() {
    assert!(TurboCdnError::timeout("t").is_retryable());
    assert!(TurboCdnError::from_status_code(500, "u").is_retryable());
    assert!(!TurboCdnError::from_status_code(404, "u").is_retryable());
    assert!(TurboCdnError::from_status_code(404, "u").should_try_next_mirror());
    assert!(!TurboCdnError::from_status_code(403, "u").should_try_next_mirror());
    assert_eq!(TurboCdnError::from_status_code(404, "u").status_code(), Some(404));
    assert_eq!(TurboCdnError::config("c").status_code(), None);
}

#[test]
fn categories_and_messages() {
    assert_eq!(TurboCdnError::config("c").category(), "config");
    assert_eq!(TurboCdnError::rate_limit("r").category(), "rate_limit");
    assert_eq!(TurboCdnError::config("bad").to_message(), "Configuration error: bad");
    assert_eq!(
        TurboCdnError::checksum_mismatch("aa", "bb").to_message(),
        "Checksum validation failed: expected aa, got bb"
    );
    assert_eq!(TurboCdnError::http_status(418, "teapot", "u").to_message(), "HTTP 418: teapot");
    match TurboCdnError::network("down") {
        TurboCdnError::Internal { message } => assert_eq!(message, "Network error: down"),
        other => panic!("unexpected {:?}", other),
    }
}
