use std::time::Duration;
use turbo_cdn::error::TurboCdnError;
use turbo_cdn::github_releases::{
    AssetInfo, DataSource, FetchOptions, GitHubReleasesFetcher, ReleaseInfo,
};

fn release(tag: &str, prerelease: bool, draft: bool) -> ReleaseInfo {
    ReleaseInfo {
        tag_name: tag.to_string(),
        name: None,
        prerelease,
        draft,
        published_at: None,
        assets: Vec::new(),
    }
}

fn tags(releases: &[ReleaseInfo]) -> Vec<String> {
    releases.iter().map(|r| r.tag_name.clone()).collect()
}

#[test]
fn test_fetch_options_default() {
    let options = FetchOptions::default();
    assert!(!options.include_prereleases);
    assert!(!options.include_drafts);
    assert!(options.max_versions.is_none());
    assert_eq!(options.timeout, Duration::from_secs(30));
}

#[test]
fn test_fetch_options_builder() {
    let options = FetchOptions::new()
        .with_prereleases(true)
        .with_drafts(true)
        .with_max_versions(10)
        .with_github_token("test-token")
        .with_timeout(Duration::from_secs(60));

    assert!(options.include_prereleases);
    assert!(options.include_drafts);
    assert_eq!(options.max_versions, Some(10));
    assert_eq!(options.github_token, Some("test-token".to_string()));
    assert_eq!(options.timeout, Duration::from_secs(60));
}

#[test]
fn test_data_source_display() {
    assert_eq!(DataSource::GitHub.to_display_string(), "GitHub API");
    assert_eq!(DataSource::JsDelivr.to_display_string(), "jsDelivr CDN");
}

#[test]
fn test_fetcher_default() {
    let fetcher = GitHubReleasesFetcher::new();
    assert!(!fetcher.options.include_prereleases);
}

#[test]
fn test_fetcher_with_options() {
    let options = FetchOptions::new().with_prereleases(true).with_max_versions(5);
    let fetcher = GitHubReleasesFetcher::with_options(options);
    assert!(fetcher.options.include_prereleases);
    assert_eq!(fetcher.options.max_versions, Some(5));
}

#[test]
fn release_info_holds_its_assets() {
    let release = ReleaseInfo {
        tag_name: "v1.0.0".to_string(),
        name: Some("Release 1.0.0".to_string()),
        prerelease: false,
        draft: false,
        published_at: Some("2024-01-01T00:00:00Z".to_string()),
        assets: vec![AssetInfo {
            name: "app-linux-x64.tar.gz".to_string(),
            size: 1024,
            browser_download_url:
                "https://github.com/owner/repo/releases/download/v1.0.0/app-linux-x64.tar.gz"
                    .to_string(),
            content_type: Some("application/gzip".to_string()),
            download_count: 100,
        }],
    };
    assert_eq!(release.assets.len(), 1);
    assert_eq!(release.assets[0].size, 1024);
}

#[test]
fn new_with_token_keeps_the_token() {
    let fetcher = GitHubReleasesFetcher::new_with_token(Some("abc".to_string()));
    assert_eq!(fetcher.options.github_token, Some("abc".to_string()));
    assert_eq!(fetcher.authorization_header(), Some("Bearer abc".to_string()));
    assert_eq!(GitHubReleasesFetcher::new().authorization_header(), None);
}

#[test]
fn api_urls_name_the_repository() {
    assert_eq!(
        GitHubReleasesFetcher::releases_api_url("owner", "repo"),
        "https://api.github.com/repos/owner/repo/releases?per_page=100"
    );
    assert_eq!(
        GitHubReleasesFetcher::jsdelivr_versions_url("owner", "repo"),
        "https://data.jsdelivr.com/v1/package/gh/owner/repo"
    );
}

#[test]
fn drafts_and_prereleases_are_dropped_by_default() {
    let fetcher = GitHubReleasesFetcher::new();
    let releases = vec![
        release("v3.0.0-rc1", true, false),
        release("v2.0.0", false, false),
        release("v2.1.0", false, true),
        release("v1.0.0", false, false),
    ];
    let kept = fetcher.select_releases(releases);
    assert_eq!(tags(&kept), vec!["v2.0.0".to_string(), "v1.0.0".to_string()]);
}

#[test]
fn max_versions_keeps_the_first_releases() {
    let options = FetchOptions::new().with_prereleases(true).with_drafts(true).with_max_versions(2);
    let fetcher = GitHubReleasesFetcher::with_options(options);
    let releases = vec![
        release("v3", true, false),
        release("v2", false, true),
        release("v1", false, false),
    ];
    let kept = fetcher.select_releases(releases);
    assert_eq!(tags(&kept), vec!["v3".to_string(), "v2".to_string()]);
}

#[test]
fn jsdelivr_prerelease_versions_are_filtered() {
    let fetcher = GitHubReleasesFetcher::new();
    let versions = vec![
        "2.0.0-alpha.1".to_string(),
        "1.9.0".to_string(),
        "1.9.0-beta".to_string(),
        "1.8.0-rc.2".to_string(),
        "1.7.0-dev".to_string(),
        "1.6.0-pre".to_string(),
        "1.5.0".to_string(),
    ];
    let kept = fetcher.select_jsdelivr_versions(versions.clone());
    assert_eq!(kept, vec!["1.9.0".to_string(), "1.5.0".to_string()]);
    let all = GitHubReleasesFetcher::with_options(FetchOptions::new().with_prereleases(true).with_max_versions(3))
        .select_jsdelivr_versions(versions);
    assert_eq!(all.len(), 3);
    assert_eq!(all[0], "2.0.0-alpha.1");
}

#[test]
fn rate_limited_statuses_report_the_remaining_quota() {
    match GitHubReleasesFetcher::check_github_status(403, Some("0"), "o", "r") {
        Err(TurboCdnError::RateLimit { message }) => {
            assert_eq!(message, "GitHub API rate limited (remaining: 0)")
        }
        other => panic!("unexpected {:?}", other),
    }
    match GitHubReleasesFetcher::check_github_status(429, None, "o", "r") {
        Err(TurboCdnError::RateLimit { message }) => {
            assert_eq!(message, "GitHub API rate limited (remaining: unknown)")
        }
        other => panic!("unexpected {:?}", other),
    }
}

#[test]
fn other_failed_statuses_are_http_errors() {
    match GitHubReleasesFetcher::check_github_status(404, None, "o", "r") {
        Err(TurboCdnError::HttpStatus { status_code, message, url }) => {
            assert_eq!(status_code, 404);
            assert_eq!(message, "Not Found");
            assert_eq!(url, "https://api.github.com/repos/o/r/releases");
        }
        other => panic!("unexpected {:?}", other),
    }
    assert!(GitHubReleasesFetcher::check_github_status(200, None, "o", "r").is_ok());
    match GitHubReleasesFetcher::check_jsdelivr_status(503, "https://x") {
        Err(TurboCdnError::ServerError { status_code, .. }) => assert_eq!(status_code, 503),
        other => panic!("unexpected {:?}", other),
    }
}

#[test]
fn jsdelivr_fallback_gives_versions_or_both_errors() {
    let github_err = TurboCdnError::rate_limit("limited");
    let ok = GitHubReleasesFetcher::versions_after_github_failure(
        "o",
        "r",
        &github_err,
        Ok(vec!["1.0.0".to_string()]),
    )
    .unwrap();
    assert_eq!(ok.source, DataSource::JsDelivr);
    assert_eq!(ok.versions, vec!["1.0.0".to_string()]);

    let err = GitHubReleasesFetcher::versions_after_github_failure(
        "o",
        "r",
        &github_err,
        Err(TurboCdnError::download("gone")),
    );
    match err {
        Err(TurboCdnError::Download { message }) => assert_eq!(
            message,
            "Failed to fetch versions for o/r: GitHub error: Rate limit exceeded: limited; jsDelivr error: Download failed: gone"
        ),
        other => panic!("unexpected {:?}", other),
    }
}

#[test]
fn jsdelivr_tags_become_minimal_releases() {
    let github_err = TurboCdnError::download("x");
    let res = GitHubReleasesFetcher::releases_after_github_failure(
        "o",
        "r",
        &github_err,
        Ok(vec!["v1".to_string(), "v2".to_string()]),
    )
    .unwrap();
    assert_eq!(res.source, DataSource::JsDelivr);
    assert_eq!(tags(&res.releases), vec!["v1".to_string(), "v2".to_string()]);
    assert!(res.releases.iter().all(|r| r.name.is_none() && r.assets.is_empty() && !r.draft));
}

#[test]
fn latest_version_is_the_first_listed() {
    let latest = GitHubReleasesFetcher::latest_version("o", "r", vec!["v2".to_string(), "v1".to_string()]);
    assert_eq!(latest.unwrap(), "v2");
    match GitHubReleasesFetcher::latest_version("o", "r", Vec::new()) {
        Err(TurboCdnError::Download { message }) => assert_eq!(message, "No releases found for o/r"),
        other => panic!("unexpected {:?}", other),
    }
}

#[test]
fn release_tags_keep_order() {
    let releases = vec![release("a", false, false), release("b", true, false)];
    assert_eq!(GitHubReleasesFetcher::release_tags(releases), vec!["a".to_string(), "b".to_string()]);
}

#[test]
fn environment_token_prefers_github_token() {
    let both = GitHubReleasesFetcher::from_environment_tokens(Some("a".to_string()), Some("b".to_string()));
    assert_eq!(both.options.github_token, Some("a".to_string()));
    let second = GitHubReleasesFetcher::from_environment_tokens(None, Some("b".to_string()));
    assert_eq!(second.options.github_token, Some("b".to_string()));
    let none = GitHubReleasesFetcher::from_environment_tokens(None, None);
    assert_eq!(none.options.github_token, None);
    assert_eq!(none.options.timeout, Duration::from_secs(30));
}
