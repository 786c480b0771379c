use turbo_cdn::domain_manager::{DomainCategory, DomainEntry, DomainManager, DomainValidationConfig};
use turbo_cdn::error::TurboCdnError;

fn compliance_message(r: Result<(), TurboCdnError>) -> String {
    match r {
        Err(TurboCdnError::Compliance { message }) => message,
        other => panic!("expected a compliance error, got {:?}", other),
    }
}

#[test]
fn builtin_domains_are_registered() {
    let m = DomainManager::new();
    assert_eq!(m.list_domains().len(), 22);
    let gh = m.get_domain("github.com").unwrap();
    assert_eq!(gh.trust_level, 95);
    assert!(m.validate_domain("github.com").is_ok());
    assert!(m.validate_domain("api.github.com").is_ok());
}

#[test]
fn added_domain_is_found_and_removed_domain_is_gone() {
    let mut m = DomainManager::new();
    let entry = DomainEntry::new("example.org", DomainCategory::Custom("mine".to_string()))
        .with_description("mine")
        .with_tags(vec!["x".to_string()])
        .with_trust_level(120);
    m.add_domain(entry).unwrap();
    let got = m.get_domain("example.org").unwrap();
    assert_eq!(got.trust_level, 100);
    assert_eq!(got.description, Some("mine".to_string()));
    assert!(m.remove_domain("example.org"));
    assert!(m.get_domain("example.org").is_none());
    assert!(!m.remove_domain("example.org"));
}

#[test]
fn empty_domain_names_are_refused() {
    let mut m = DomainManager::new();
    match m.add_domain(DomainEntry::new("", DomainCategory::CDN)) {
        Err(TurboCdnError::Config { message }) => assert_eq!(message, "Domain name cannot be empty"),
        other => panic!("unexpected {:?}", other),
    }
}

#[test]
fn strict_mode_refuses_unknown_domains() {
    let m = DomainManager::new();
    assert_eq!(
        compliance_message(m.validate_domain("evil.example")),
        "Domain 'evil.example' is not in the allowed list"
    );
    let permissive = DomainManager::with_config(DomainValidationConfig::permissive());
    assert!(permissive.validate_domain("evil.example").is_ok());
    let disabled = DomainManager::with_config(DomainValidationConfig::disabled());
    assert!(disabled.validate_domain("evil.example").is_ok());
}

#[test]
fn disabled_and_untrusted_entries_are_refused() {
    let mut m = DomainManager::new();
    m.set_domain_enabled("gitlab.com", false).unwrap();
    assert_eq!(compliance_message(m.validate_domain("gitlab.com")), "Domain 'gitlab.com' is disabled");
    match m.set_domain_enabled("nowhere.example", true) {
        Err(TurboCdnError::Config { message }) => assert_eq!(message, "Domain 'nowhere.example' not found"),
        other => panic!("unexpected {:?}", other),
    }
    m.add_domain(DomainEntry::new("low.example", DomainCategory::Archive).with_trust_level(10)).unwrap();
    assert_eq!(
        compliance_message(m.validate_domain("low.example")),
        "Domain 'low.example' trust level (10) below minimum required (50)"
    );
}

#[test]
fn urls_are_judged_by_their_domain() {
    let m = DomainManager::new();
    assert!(m.validate_url("https://github.com/owner/repo").is_ok());
    assert!(m.validate_url("https://objects.githubusercontent.com/x").is_ok());
    assert_eq!(
        compliance_message(m.validate_url("https://evil.example/x")),
        "Domain 'evil.example' is not in the allowed list"
    );
    assert_eq!(compliance_message(m.validate_url("http://127.0.0.1/x")), "URL does not have a valid domain");
    assert!(compliance_message(m.validate_url("not a url")).starts_with("Invalid URL: "));
}

#[test]
fn listing_by_category_and_tag() {
    let m = DomainManager::new();
    assert_eq!(m.list_domains_by_category(&DomainCategory::CDN).len(), 4);
    assert_eq!(m.list_domains_by_tag("rust").len(), 3);
    let stats = m.get_stats();
    assert_eq!(stats.total, 22);
    assert_eq!(stats.enabled, 22);
    assert_eq!(stats.disabled, 0);
    let counted: usize = stats.by_category.iter().map(|(_, n)| *n).sum();
    assert_eq!(counted, 22);
}

#[test]
fn with_tags_appends_to_earlier_tags() {
    let e = DomainEntry::new("example.org", DomainCategory::CDN)
        .with_tags(vec!["a".to_string()])
        .with_tags(vec!["b".to_string(), "c".to_string()]);
    assert_eq!(e.tags, vec!["a".to_string(), "b".to_string(), "c".to_string()]);
}
