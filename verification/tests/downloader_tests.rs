use turbo_cdn::cache::CacheLookup;
use turbo_cdn::downloader::{
    cache_action, not_approved_error, request_url, use_chunks, CacheAction, DownloadAttempts, UrlList,
};
use turbo_cdn::error::TurboCdnError;

#[test]
fn compliance_requests_name_the_repository_file() {
    assert_eq!(request_url("owner/repo", "v1.2.0", "tool.zip"), "owner/repo@v1.2.0/tool.zip");
}

#[test]
fn refused_requests_list_their_reasons() {
    let reasons = vec!["User consent required".to_string(), "say \"no\"".to_string()];
    match not_approved_error(&reasons) {
        TurboCdnError::Compliance { message } => {
            assert_eq!(message, format!("Download not approved: {:?}", reasons));
        }
        other => panic!("unexpected error {:?}", other),
    }
    match not_approved_error(&Vec::new()) {
        TurboCdnError::Compliance { message } => assert_eq!(message, "Download not approved: []"),
        other => panic!("unexpected error {:?}", other),
    }
}

#[test]
fn cache_lookups_lead_to_actions() {
    assert_eq!(cache_action(&CacheLookup::Miss), CacheAction::Download);
}

#[test]
fn only_large_ranged_files_are_chunked() {
    assert!(use_chunks(2048, 1024, true));
    assert!(!use_chunks(1024, 1024, true));
    assert!(!use_chunks(2048, 1024, false));
}

#[test]
fn primary_urls_are_tried_before_fallbacks() {
    let mut attempts = DownloadAttempts::new(2, 1);
    assert_eq!(attempts.next_url(), Some((UrlList::Primary, 0)));
    attempts.record_failure(TurboCdnError::timeout("first"));
    assert_eq!(attempts.next_url(), Some((UrlList::Primary, 1)));
    attempts.record_failure(TurboCdnError::timeout("second"));
    assert_eq!(attempts.next_url(), Some((UrlList::Fallback, 0)));
    attempts.record_failure(TurboCdnError::from_status_code(404, "u"));
    assert_eq!(attempts.next_url(), None);
    match attempts.into_error() {
        TurboCdnError::HttpStatus { status_code, .. } => assert_eq!(status_code, 404),
        other => panic!("unexpected error {:?}", other),
    }
    match DownloadAttempts::new(0, 0).into_error() {
        TurboCdnError::Download { message } => assert_eq!(message, "All download attempts failed"),
        other => panic!("unexpected error {:?}", other),
    }
}
