use turbo_cdn::compliance::{
    ComplianceChecker, ContentValidator, DownloadRequest, GithubLicense, LicenseInfo, LicenseValidator, RiskLevel,
};
use turbo_cdn::config::sections::ComplianceConfig;
use turbo_cdn::error::TurboCdnError;

fn request(url: &str, file_name: &str, consent: bool) -> DownloadRequest {
    DownloadRequest {
        id: 7,
        url: url.to_string(),
        source: "github".to_string(),
        repository: Some("https://github.com/owner/repo".to_string()),
        file_name: file_name.to_string(),
        user_agent: "turbo-cdn".to_string(),
        timestamp: 0,
        user_consent: consent,
    }
}

fn info(open: bool) -> LicenseInfo {
    LicenseInfo {
        license_type: "MIT".to_string(),
        is_open_source: open,
        allows_redistribution: open,
        requires_attribution: open,
        source_url: None,
    }
}

#[test]
fn blocked_patterns_match_case_insensitively() {
    let v = ContentValidator::new().unwrap();
    assert!(v.check_blocked_patterns("https://github.com/a/b", "tool.zip").is_ok());
    match v.check_blocked_patterns("https://github.com/a/b", "Tool-KEYGEN.exe") {
        Err(TurboCdnError::Compliance { message }) => {
            assert_eq!(message, "Content matches blocked pattern: (?i)keygen")
        }
        other => panic!("unexpected {:?}", other),
    }
    match v.check_blocked_patterns("https://example.com/crack/serial", "x") {
        Err(TurboCdnError::Compliance { message }) => {
            assert_eq!(message, "Content matches blocked pattern: (?i)crack")
        }
        other => panic!("unexpected {:?}", other),
    }
}

#[test]
fn sources_must_come_from_allowed_domains() {
    let v = ContentValidator::new().unwrap();
    assert!(v.validate_source("https://objects.githubusercontent.com/x").is_ok());
    match v.validate_source("https://evil.example/x") {
        Err(TurboCdnError::Compliance { message }) => {
            assert_eq!(message, "Domain 'evil.example' is not in the allowed list")
        }
        other => panic!("unexpected {:?}", other),
    }
}

#[test]
fn repository_paths_and_api_urls() {
    assert_eq!(LicenseValidator::repository_path("https://github.com/owner/repo.git"), "owner/repo");
    assert_eq!(LicenseValidator::repository_path("https://github.com/owner/repo//"), "owner/repo");
    assert_eq!(LicenseValidator::repository_path("https://github.com/owner/repo.git/"), "owner/repo.git");
    assert_eq!(LicenseValidator::repository_path("http://github.com/owner/repo"), "owner/repo");
    assert_eq!(
        LicenseValidator::github_api_url("https://github.com/owner/repo"),
        "https://api.github.com/repos/owner/repo"
    );
    assert!(LicenseValidator::is_github_repository("https://github.com/a/b"));
    assert!(!LicenseValidator::is_github_repository("https://gitlab.com/a/b"));
}

#[test]
fn github_licenses_are_classified() {
    let v = LicenseValidator::new();
    assert!(v.is_known_license("MIT"));
    assert!(!v.is_known_license("mit"));
    let mit = v.license_from_github(
        "https://github.com/o/r",
        &GithubLicense::Object { key: Some("mit".to_string()), name: Some("MIT".to_string()) },
    );
    assert!(mit.is_open_source && mit.allows_redistribution && mit.requires_attribution);
    assert_eq!(mit.license_type, "MIT");
    let unlicense = v.license_from_github(
        "r",
        &GithubLicense::Object { key: Some("unlicense".to_string()), name: Some("Unlicense".to_string()) },
    );
    assert!(unlicense.is_open_source && !unlicense.requires_attribution);
    let proprietary = v.license_from_github(
        "r",
        &GithubLicense::Object { key: None, name: Some("Proprietary".to_string()) },
    );
    assert!(!proprietary.is_open_source);
    let none = v.license_from_github("r", &GithubLicense::Null);
    assert_eq!(none.license_type, "Unknown");
    assert_eq!(none.source_url, Some("r".to_string()));
    assert!(!LicenseValidator::validate_generic_repository("x").is_open_source);
}

#[test]
fn local_rules_reject_with_reasons_and_risk() {
    let checker = ComplianceChecker::new(ComplianceConfig::default()).unwrap();
    let ok = checker.check_local(&request("https://github.com/o/r/releases/x.zip", "x.zip", true), 5);
    assert!(ok.approved);
    assert!(ok.reasons.is_empty());
    assert_eq!(ok.risk_level, RiskLevel::Low);
    assert_eq!(ok.request_id, 7);
    assert_eq!(ok.timestamp, 5);

    let no_consent = checker.check_local(&request("https://github.com/o/r/x.zip", "x.zip", false), 5);
    assert!(!no_consent.approved);
    assert_eq!(no_consent.reasons, vec!["User consent required but not provided".to_string()]);
    assert_eq!(no_consent.risk_level, RiskLevel::Critical);

    let foreign = checker.check_local(&request("https://evil.example/x.zip", "x.zip", true), 5);
    assert_eq!(
        foreign.reasons,
        vec!["Domain validation failed: Compliance check failed: Domain 'evil.example' is not in the allowed list"
            .to_string()]
    );
    assert_eq!(foreign.risk_level, RiskLevel::High);

    let warez = checker.check_local(&request("https://github.com/o/r/warez.zip", "warez.zip", true), 5);
    assert_eq!(
        warez.reasons,
        vec!["Content validation failed: Compliance check failed: Content matches blocked pattern: (?i)warez"
            .to_string()]
    );
    assert_eq!(warez.risk_level, RiskLevel::Critical);
}

#[test]
fn license_outcomes_update_the_result() {
    let checker = ComplianceChecker::new(ComplianceConfig::default()).unwrap();
    let req = request("https://github.com/o/r/x.zip", "x.zip", true);
    assert!(checker.needs_license_check(&req));
    let base = checker.check_local(&req, 1);
    let open = checker.apply_license_outcome(base.clone(), Ok(info(true)));
    assert!(open.approved && open.license_info.is_some());
    let closed = checker.apply_license_outcome(base.clone(), Ok(info(false)));
    assert!(!closed.approved);
    assert_eq!(closed.reasons, vec!["Repository does not have an open source license".to_string()]);
    assert_eq!(closed.risk_level, RiskLevel::Critical);
    let failed = checker.apply_license_outcome(base, Err(TurboCdnError::timeout("slow")));
    assert!(!failed.approved);
    assert_eq!(failed.reasons, vec!["License validation failed: Operation timed out: slow".to_string()]);
    assert_eq!(failed.risk_level, RiskLevel::Medium);
}

#[test]
fn risk_levels_are_ordered() {
    assert!(RiskLevel::Low < RiskLevel::Medium && RiskLevel::High < RiskLevel::Critical);
    assert_eq!(RiskLevel::max_of(RiskLevel::High, RiskLevel::Medium), RiskLevel::High);
    assert_eq!(RiskLevel::Critical.rank(), 3);
}
