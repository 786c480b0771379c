//! The layered configuration model: metadata, general settings, regions,
//! mirrors, trusted domains, performance, security, logging, monitoring and
//! experimental switches, with the defaults that a fresh installation uses.
//!
//! Paths are held as their text; durations as `std::time::Duration`.
use vstd::prelude::*;
use std::collections::HashMap;
use std::time::Duration;
use crate::text::{owned, string_views};
use crate::time::{duration_from_secs, duration_of_secs};

verus! {

/// Configuration metadata
#[derive(Debug, Clone)]
pub struct MetaConfig {
    pub version: String,
    pub schema_version: String,
    pub last_updated: Option<String>,
    pub auto_update: bool,
    pub description: Option<String>,
}

/// General configuration
#[derive(Debug, Clone)]
pub struct GeneralConfig {
    pub enabled: bool,
    pub config_check_interval: Duration,
    pub config_cache_ttl: Duration,
    pub debug_mode: bool,
    pub app_name: Option<String>,
    pub user_agent_template: Option<String>,
    /// User agent string
    pub user_agent: String,
    /// Maximum concurrent downloads
    pub max_concurrent_downloads: usize,
    /// Download directory
    pub download_dir: String,
    /// Default region
    pub default_region: String,
}

/// Region configuration
#[derive(Debug, Clone)]
pub struct RegionConfig {
    pub auto_detect: bool,
    pub default: String,
    pub china_optimization: bool,
    pub detection_timeout: Duration,
    pub network_test_timeout: Duration,
    pub regions: HashMap<String, RegionSpecificConfig>,
}

/// Region-specific configuration
#[derive(Debug, Clone)]
pub struct RegionSpecificConfig {
    pub enabled: bool,
    pub priority_boost: i32,
    pub fallback_timeout: Duration,
    pub preferred_mirrors: Vec<String>,
    pub dns_servers: Vec<String>,
}

/// Mirror configurations
#[derive(Debug, Clone)]
pub struct MirrorConfigs {
    pub enabled: bool,
    pub health_check_interval: Duration,
    pub sync_check_enabled: bool,
    pub max_concurrent_health_checks: usize,
    pub default_timeout: Duration,
    pub configs: HashMap<String, MirrorConfig>,
}

/// Individual mirror configuration
#[derive(Debug, Clone)]
pub struct MirrorConfig {
    pub enabled: bool,
    pub description: String,
    pub sources: Vec<MirrorSource>,
    pub url_patterns: Vec<UrlPattern>,
    pub health_check: Option<HealthCheckConfig>,
    pub warning: Option<String>,
    pub timeout: Option<Duration>,
    /// API base URL (for GitHub-like services)
    pub api_base_url: String,
    /// Base URL for the service
    pub base_url: String,
    /// Priority for this mirror (lower = higher priority)
    pub priority: u32,
    /// Authentication token
    pub token: Option<String>,
}

/// Mirror source definition
#[derive(Debug, Clone)]
pub struct MirrorSource {
    pub url: String,
    pub regions: Vec<String>,
    pub trust_level: u8,
    pub tags: Vec<String>,
    pub weight: u32,
    pub max_connections: Option<usize>,
}

/// URL pattern for mirror mapping
#[derive(Debug, Clone)]
pub struct UrlPattern {
    pub from: String,
    pub to: String,
    pub regions: Vec<String>,
    pub priority: u32,
    pub is_regex: bool,
}

/// Health check configuration
#[derive(Debug, Clone)]
pub struct HealthCheckConfig {
    pub path: String,
    pub expected_status: u16,
    pub timeout: Duration,
    pub interval: Option<Duration>,
    pub retries: u32,
}

/// Domain configuration
#[derive(Debug, Clone)]
pub struct DomainConfig {
    pub validation_enabled: bool,
    pub strict_mode: bool,
    pub allow_subdomains: bool,
    pub min_trust_level: u8,
    pub cache_ttl: Duration,
    pub trusted: HashMap<String, TrustedDomain>,
    pub categories: HashMap<String, DomainCategory>,
}

/// Trusted domain definition
#[derive(Debug, Clone)]
pub struct TrustedDomain {
    pub domain: String,
    pub trust_level: u8,
    pub category: String,
    pub tags: Vec<String>,
    pub notes: Option<String>,
}

/// Domain category definition
#[derive(Debug, Clone)]
pub struct DomainCategory {
    pub name: String,
    pub description: String,
    pub default_trust_level: u8,
    pub allowed_by_default: bool,
}

/// Performance configuration
#[derive(Debug, Clone)]
pub struct PerformanceConfig {
    pub max_concurrent_downloads: usize,
    pub chunk_size: String,
    pub timeout: Duration,
    pub retry_attempts: usize,
    pub retry_delay: Duration,
    pub connection_pool_size: usize,
    pub keep_alive_timeout: Duration,
    pub cache: CacheConfig,
    pub bandwidth: Option<BandwidthConfig>,
}

/// Cache configuration
#[derive(Debug, Clone)]
pub struct CacheConfig {
    pub enabled: bool,
    pub max_size: String,
    pub ttl: Duration,
    pub cleanup_interval: Duration,
    pub directory: Option<String>,
}

/// Bandwidth configuration
#[derive(Debug, Clone)]
pub struct BandwidthConfig {
    pub max_download_speed: Option<u64>,
    pub max_upload_speed: Option<u64>,
    pub adaptive: bool,
}

/// Security configuration
#[derive(Debug, Clone)]
pub struct SecurityConfig {
    pub verify_ssl: bool,
    pub verify_checksums: bool,
    pub allowed_protocols: Vec<String>,
    pub user_agent: String,
    pub custom_headers: HashMap<String, String>,
    pub audit_logging: bool,
    pub audit_log_path: String,
    pub validate_source: bool,
    pub verify_open_source: bool,
    pub strict_mode: bool,
    pub data_protection: DataProtectionConfig,
}

/// Data protection configuration
#[derive(Debug, Clone)]
pub struct DataProtectionConfig {
    pub user_consent_required: bool,
    pub anonymize_data: bool,
    pub retention_days: u32,
}

/// Logging configuration
#[derive(Debug, Clone)]
pub struct LoggingConfig {
    pub level: String,
    pub format: String,
    pub output: String,
    pub audit_enabled: bool,
    pub audit_file: Option<String>,
    pub rotation: Option<LogRotationConfig>,
}

/// Log rotation configuration
#[derive(Debug, Clone)]
pub struct LogRotationConfig {
    pub max_size: String,
    pub max_files: usize,
    pub interval: Duration,
}

/// Monitoring configuration
#[derive(Debug, Clone)]
pub struct MonitoringConfig {
    pub enabled: bool,
    pub metrics_interval: Duration,
    pub health_check_interval: Duration,
    pub export: Option<MetricsExportConfig>,
}

/// Metrics export configuration
#[derive(Debug, Clone)]
pub struct MetricsExportConfig {
    pub format: String,
    pub endpoint: String,
    pub interval: Duration,
}

/// Experimental features configuration
#[derive(Debug, Clone)]
pub struct ExperimentalConfig {
    pub ml_optimization: bool,
    pub predictive_caching: bool,
    pub p2p_sharing: bool,
    pub advanced_analytics: bool,
}

/// Global configuration structure
#[derive(Debug, Clone)]
pub struct GlobalConfig {
    pub meta: MetaConfig,
    pub general: GeneralConfig,
    pub regions: RegionConfig,
    pub mirrors: MirrorConfigs,
    pub domains: DomainConfig,
    pub performance: PerformanceConfig,
    pub security: SecurityConfig,
    pub logging: LoggingConfig,
    pub monitoring: MonitoringConfig,
    pub experimental: ExperimentalConfig,
}

// ---------------------------------------------------------------------------
// Field defaults
// ---------------------------------------------------------------------------

/// Default for switches that are on unless configured off.
pub fn default_true() -> (b: bool)
    ensures
        b,
{
    true
}

/// Default trust level of a mirror source.
pub fn default_trust_level() -> (t: u8)
    ensures
        t == 80,
{
    80
}

/// Default weight of a mirror source.
pub fn default_weight() -> (w: u32)
    ensures
        w == 100,
{
    100
}

/// Default priority of mirrors and URL patterns.
pub fn default_priority() -> (p: u32)
    ensures
        p == 100,
{
    100
}

/// Default expected status of a health check.
pub fn default_http_status() -> (s: u16)
    ensures
        s == 200,
{
    200
}

/// Default number of health check retries.
pub fn default_retries() -> (r: u32)
    ensures
        r == 3,
{
    3
}

/// Default minimum trust level of a domain.
pub fn default_min_trust() -> (t: u8)
    ensures
        t == 50,
{
    50
}

/// Default user agent.
pub fn default_user_agent() -> (s: String)
    ensures
        s@ == "turbo-cdn/1.0"@,
{
    owned("turbo-cdn/1.0")
}

/// Default number of concurrent downloads.
pub fn default_max_concurrent() -> (n: usize)
    ensures
        n == 8,
{
    8
}

/// Default download directory.
pub fn default_download_dir() -> (s: String)
    ensures
        s@ == "./downloads"@,
{
    owned("./downloads")
}

/// Default region name.
pub fn default_region() -> (s: String)
    ensures
        s@ == "Global"@,
{
    owned("Global")
}

/// Default audit log path.
pub fn default_audit_log_path() -> (s: String)
    ensures
        s@ == "~/.turbo-cdn/audit.log"@,
{
    owned("~/.turbo-cdn/audit.log")
}

/// Default retention period, in days.
pub fn default_retention_days() -> (d: u32)
    ensures
        d == 30,
{
    30
}

/// Default API base URL of GitHub-like services.
pub fn default_api_base_url() -> (s: String)
    ensures
        s@ == "https://api.github.com"@,
{
    owned("https://api.github.com")
}

/// Default base URL of GitHub-like services.
pub fn default_base_url() -> (s: String)
    ensures
        s@ == "https://github.com"@,
{
    owned("https://github.com")
}

impl Default for DataProtectionConfig {
    fn default() -> (c: DataProtectionConfig)
        ensures
            !c.user_consent_required,
            !c.anonymize_data,
            c.retention_days == 0,
    {
        DataProtectionConfig { user_consent_required: false, anonymize_data: false, retention_days: 0 }
    }
}

impl Default for ExperimentalConfig {
    fn default() -> (c: ExperimentalConfig)
        ensures
            !c.ml_optimization,
            !c.predictive_caching,
            !c.p2p_sharing,
            !c.advanced_analytics,
    {
        ExperimentalConfig {
            ml_optimization: false,
            predictive_caching: false,
            p2p_sharing: false,
            advanced_analytics: false,
        }
    }
}

/// Whether an optional string holds exactly `text`.
pub open spec fn opt_text_is(o: Option<String>, text: Seq<char>) -> bool {
    o matches Some(s) && s@ == text
}

/// The defaults of a fresh installation, section by section.
pub open spec fn is_default_global_config(c: GlobalConfig) -> bool {
    // meta
    &&& c.meta.version@ == "1.0"@
    &&& c.meta.schema_version@ == "2025.1"@
    &&& c.meta.last_updated is None
    &&& c.meta.auto_update
    &&& opt_text_is(c.meta.description, "Default configuration"@)
    // general
    &&& c.general.enabled
    &&& c.general.config_check_interval == duration_of_secs(3600)
    &&& c.general.config_cache_ttl == duration_of_secs(300)
    &&& !c.general.debug_mode
    &&& opt_text_is(c.general.app_name, "turbo-cdn"@)
    &&& opt_text_is(c.general.user_agent_template, "turbo-cdn/{version}"@)
    &&& c.general.user_agent@ == "turbo-cdn/1.0"@
    &&& c.general.max_concurrent_downloads == 8
    &&& c.general.download_dir@ == "./downloads"@
    &&& c.general.default_region@ == "Global"@
    // regions
    &&& c.regions.auto_detect
    &&& c.regions.default@ == "Global"@
    &&& c.regions.china_optimization
    &&& c.regions.detection_timeout == duration_of_secs(5)
    &&& c.regions.network_test_timeout == duration_of_secs(3)
    &&& c.regions.regions@ == Map::<String, RegionSpecificConfig>::empty()
    // mirrors
    &&& c.mirrors.enabled
    &&& c.mirrors.health_check_interval == duration_of_secs(600)
    &&& c.mirrors.sync_check_enabled
    &&& c.mirrors.max_concurrent_health_checks == 5
    &&& c.mirrors.default_timeout == duration_of_secs(30)
    &&& c.mirrors.configs@ == Map::<String, MirrorConfig>::empty()
    // domains
    &&& c.domains.validation_enabled
    &&& !c.domains.strict_mode
    &&& c.domains.allow_subdomains
    &&& c.domains.min_trust_level == 50
    &&& c.domains.cache_ttl == duration_of_secs(3600)
    &&& c.domains.trusted@ == Map::<String, TrustedDomain>::empty()
    &&& c.domains.categories@ == Map::<String, DomainCategory>::empty()
    // performance
    &&& c.performance.max_concurrent_downloads == 8
    &&& c.performance.chunk_size@ == "1MB"@
    &&& c.performance.timeout == duration_of_secs(30)
    &&& c.performance.retry_attempts == 3
    &&& c.performance.retry_delay == duration_of_secs(1)
    &&& c.performance.connection_pool_size == 20
    &&& c.performance.keep_alive_timeout == duration_of_secs(30)
    &&& c.performance.cache.enabled
    &&& c.performance.cache.max_size@ == "10GB"@
    &&& c.performance.cache.ttl == duration_of_secs(86400)
    &&& c.performance.cache.cleanup_interval == duration_of_secs(3600)
    &&& c.performance.cache.directory is None
    &&& c.performance.bandwidth is None
    // security
    &&& c.security.verify_ssl
    &&& c.security.verify_checksums
    &&& string_views(c.security.allowed_protocols@) == seq!["https"@, "http"@]
    &&& c.security.user_agent@ == "turbo-cdn/1.0"@
    &&& c.security.custom_headers@ == Map::<String, String>::empty()
    &&& c.security.audit_logging
    &&& c.security.audit_log_path@ == "~/.turbo-cdn/audit.log"@
    &&& !c.security.validate_source
    &&& !c.security.verify_open_source
    &&& !c.security.strict_mode
    &&& !c.security.data_protection.user_consent_required
    &&& !c.security.data_protection.anonymize_data
    &&& c.security.data_protection.retention_days == 0
    // logging
    &&& c.logging.level@ == "info"@
    &&& c.logging.format@ == "json"@
    &&& c.logging.output@ == "stdout"@
    &&& c.logging.audit_enabled
    &&& opt_text_is(c.logging.audit_file, "~/.turbo-cdn/audit.log"@)
    &&& c.logging.rotation is None
    // monitoring
    &&& c.monitoring.enabled
    &&& c.monitoring.metrics_interval == duration_of_secs(60)
    &&& c.monitoring.health_check_interval == duration_of_secs(300)
    &&& c.monitoring.export is None
    // experimental
    &&& !c.experimental.ml_optimization
    &&& !c.experimental.predictive_caching
    &&& !c.experimental.p2p_sharing
    &&& !c.experimental.advanced_analytics
}

impl Default for GlobalConfig {
    fn default() -> (c: GlobalConfig)
        ensures
            is_default_global_config(c),
    {
        let meta = MetaConfig {
            version: owned("1.0"),
            schema_version: owned("2025.1"),
            last_updated: None,
            auto_update: true,
            description: Some(owned("Default configuration")),
        };
        let general = GeneralConfig {
            enabled: true,
            config_check_interval: duration_from_secs(3600),
            config_cache_ttl: duration_from_secs(300),
            debug_mode: false,
            app_name: Some(owned("turbo-cdn")),
            user_agent_template: Some(owned("turbo-cdn/{version}")),
            user_agent: default_user_agent(),
            max_concurrent_downloads: default_max_concurrent(),
            download_dir: default_download_dir(),
            default_region: default_region(),
        };
        let regions = RegionConfig {
            auto_detect: true,
            default: owned("Global"),
            china_optimization: true,
            detection_timeout: duration_from_secs(5),
            network_test_timeout: duration_from_secs(3),
            regions: HashMap::new(),
        };
        let mirrors = MirrorConfigs {
            enabled: true,
            health_check_interval: duration_from_secs(600),
            sync_check_enabled: true,
            max_concurrent_health_checks: 5,
            default_timeout: duration_from_secs(30),
            configs: HashMap::new(),
        };
        let domains = DomainConfig {
            validation_enabled: true,
            strict_mode: false,
            allow_subdomains: true,
            min_trust_level: 50,
            cache_ttl: duration_from_secs(3600),
            trusted: HashMap::new(),
            categories: HashMap::new(),
        };
        let performance = PerformanceConfig {
            max_concurrent_downloads: 8,
            chunk_size: owned("1MB"),
            timeout: duration_from_secs(30),
            retry_attempts: 3,
            retry_delay: duration_from_secs(1),
            connection_pool_size: 20,
            keep_alive_timeout: duration_from_secs(30),
            cache: CacheConfig {
                enabled: true,
                max_size: owned("10GB"),
                ttl: duration_from_secs(86400),
                cleanup_interval: duration_from_secs(3600),
                directory: None,
            },
            bandwidth: None,
        };
        let security = SecurityConfig {
            verify_ssl: true,
            verify_checksums: true,
            allowed_protocols: vec![owned("https"), owned("http")],
            user_agent: owned("turbo-cdn/1.0"),
            custom_headers: HashMap::new(),
            audit_logging: true,
            audit_log_path: default_audit_log_path(),
            validate_source: false,
            verify_open_source: false,
            strict_mode: false,
            data_protection: DataProtectionConfig::default(),
        };
        assert(string_views(security.allowed_protocols@) =~= seq!["https"@, "http"@]);
        let logging = LoggingConfig {
            level: owned("info"),
            format: owned("json"),
            output: owned("stdout"),
            audit_enabled: true,
            audit_file: Some(owned("~/.turbo-cdn/audit.log")),
            rotation: None,
        };
        let monitoring = MonitoringConfig {
            enabled: true,
            metrics_interval: duration_from_secs(60),
            health_check_interval: duration_from_secs(300),
            export: None,
        };
        GlobalConfig {
            meta,
            general,
            regions,
            mirrors,
            domains,
            performance,
            security,
            logging,
            monitoring,
            experimental: ExperimentalConfig::default(),
        }
    }
}

impl GlobalConfig {
    /// Get connection timeout as Duration
    pub fn connect_timeout(&self) -> (d: Duration)
        ensures
            d == self.performance.timeout,
    {
        self.performance.timeout
    }
}

} // verus!
