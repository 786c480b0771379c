use std::time::Duration;
use turbo_cdn::config::manager::{validate_config, ConfigBuilder};
use turbo_cdn::config::models::GlobalConfig;
use turbo_cdn::config::sections;
use turbo_cdn::config::{Region, TurboCdnConfig, PACKAGE_VERSION};
use turbo_cdn::error::TurboCdnError;

fn config_error(r: Result<(), TurboCdnError>) -> String {
    match r {
        Err(TurboCdnError::Config { message }) => message,
        other => panic!("expected a configuration error, got {:?}", other),
    }
}

#[test]
fn regions_parse_and_display() {
    for name in ["China", "Asia", "Global", "AsiaPacific", "Europe", "NorthAmerica", "Mars"] {
        assert_eq!(Region::parse(name).to_display_string(), name);
    }
    assert_eq!(Region::parse("Europe"), Region::Europe);
    assert_eq!(Region::parse("Mars"), Region::Custom("Mars".to_string()));
    assert_eq!("Asia".parse::<Region>().unwrap(), Region::Asia);
    assert_eq!(Region::default(), Region::Global);
}

#[test]
fn default_configuration_values() {
    let c = TurboCdnConfig::default();
    assert_eq!(c.general.user_agent, format!("turbo-cdn/{}", PACKAGE_VERSION));
    assert_eq!(c.general.default_region, Region::Global);
    assert_eq!(c.performance.max_concurrent_downloads, 32);
    assert_eq!(c.performance.min_chunk_size, 128 * 1024);
    assert_eq!(c.performance.max_concurrent_downloads_limit, Some(64));
    assert_eq!(c.security.allowed_protocols, vec!["https".to_string(), "http".to_string()]);
    assert_eq!(c.geo_detection.ip_apis.len(), 4);
    assert_eq!(c.testing.speed_test_sizes, vec![1048576, 10485760, 104857600]);
}

#[test]
fn global_default_configuration_is_valid() {
    let c = GlobalConfig::default();
    assert_eq!(c.meta.version, "1.0");
    assert_eq!(c.general.config_check_interval, Duration::from_secs(3600));
    assert_eq!(c.connect_timeout(), Duration::from_secs(30));
    assert_eq!(c.performance.cache.max_size, "10GB");
    assert!(c.regions.regions.is_empty());
    assert!(validate_config(&c).is_ok());
}

#[test]
fn each_broken_rule_is_reported() {
    let mut c = GlobalConfig::default();
    c.meta.version = String::new();
    assert_eq!(config_error(validate_config(&c)), "Configuration version cannot be empty");

    let mut c = GlobalConfig::default();
    c.general.config_check_interval = Duration::from_secs(29);
    assert_eq!(config_error(validate_config(&c)), "Config check interval must be at least 30 seconds");

    let mut c = GlobalConfig::default();
    c.performance.retry_attempts = 11;
    assert_eq!(config_error(validate_config(&c)), "Retry attempts should not exceed 10");

    let mut c = GlobalConfig::default();
    c.security.allowed_protocols.clear();
    assert_eq!(config_error(validate_config(&c)), "At least one protocol must be allowed");

    let mut c = GlobalConfig::default();
    c.logging.level = "loud".to_string();
    assert_eq!(
        config_error(validate_config(&c)),
        "Invalid log level: loud. Must be one of: trace, debug, info, warn, error"
    );
}

#[test]
fn config_builder_records_its_choices() {
    let b = ConfigBuilder::new();
    assert!(b.enable_env_vars);
    assert!(b.config_file.is_none());
    let b = ConfigBuilder::new().with_file("/etc/x.toml").with_env_vars(false);
    assert_eq!(b.config_file, Some("/etc/x.toml".to_string()));
    assert!(!b.enable_env_vars);
    assert!(!ConfigBuilder::default().enable_env_vars);
}

#[test]
fn sectioned_configuration_validation() {
    let c = sections::TurboCdnConfig::default();
    assert!(c.validate().is_ok());
    assert_eq!(c.connect_timeout(), Duration::from_secs(30));
    assert_eq!(c.read_timeout(), Duration::from_secs(60));
    assert_eq!(c.retry_delay(), Duration::from_millis(1000));

    let mut c = sections::TurboCdnConfig::default();
    c.network.chunk_size = 0;
    assert_eq!(config_error(c.validate()), "Chunk size must be greater than 0");

    let mut c = sections::TurboCdnConfig::default();
    c.sources.github.enabled = false;
    c.sources.jsdelivr.enabled = false;
    c.sources.fastly.enabled = false;
    c.sources.cloudflare.enabled = false;
    assert_eq!(config_error(c.validate()), "At least one download source must be enabled");
    c.sources.custom.push(sections::CustomSourceConfig {
        name: "mine".to_string(),
        enabled: true,
        base_url: "https://example.com".to_string(),
        priority: 9,
        headers: std::collections::HashMap::new(),
    });
    assert!(c.validate().is_ok());

    let mut c = sections::TurboCdnConfig::default();
    c.cache.max_size = 0;
    assert_eq!(
        config_error(c.validate()),
        "Cache max size must be greater than 0 when caching is enabled"
    );
    c.cache.enabled = false;
    assert!(c.validate().is_ok());
}

#[test]
fn platform_directory_falls_back() {
    assert_eq!(sections::dir_or(None, "./downloads"), "./downloads");
    assert_eq!(sections::dir_or(Some("/home/u/Downloads".to_string()), "./downloads"), "/home/u/Downloads");
}

#[test]
fn region_from_str_accepts_any_text() {
    assert_eq!("Europe".parse::<Region>().unwrap(), Region::Europe);
    assert_eq!("Mars".parse::<Region>().unwrap(), Region::Custom("Mars".to_string()));
}

#[test]
fn cache_dir_is_a_turbo_cdn_directory() {
    let found = sections::cache_dir_in(Some("/var/cache".to_string()));
    assert!(found.ends_with("turbo-cdn"));
    assert!(found.starts_with("/var/cache"));
    let fallback = sections::cache_dir_in(None);
    assert!(fallback.starts_with("./cache"));
    assert!(fallback.ends_with("turbo-cdn"));
}
