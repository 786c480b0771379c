//! The sectioned configuration file: network, cache, download sources,
//! compliance, logging and metrics settings, their defaults, and the rules a
//! configuration file must satisfy.
//!
//! Reading and writing the file is I/O, done by the application; paths are
//! held as their text.
use vstd::prelude::*;
use std::collections::HashMap;
use std::time::Duration;
use crate::error::TurboCdnError;
use crate::text::{concat2, owned, seq_ends_with, seq_starts_with};
use crate::time::{duration_from_millis, duration_from_secs, duration_of_millis, duration_of_secs};
use crate::config::PACKAGE_VERSION;

verus! {

/// Geographic regions for CDN optimization
#[derive(Debug, Clone, Copy, PartialEq, Eq, Structural, Hash)]
pub enum Region {
    NorthAmerica,
    Europe,
    AsiaPacific,
    China,
    Global,
}

/// Log output format
#[derive(Debug, Clone, Copy, PartialEq, Eq, Structural)]
pub enum LogFormat {
    Human,
    Json,
    Compact,
}

/// General configuration settings
#[derive(Debug, Clone)]
pub struct GeneralConfig {
    /// User agent string for HTTP requests
    pub user_agent: String,
    /// Default download directory
    pub download_dir: String,
    /// Maximum number of concurrent downloads
    pub max_concurrent_downloads: usize,
    /// Default region for CDN selection
    pub default_region: Region,
    /// Enable debug mode
    pub debug: bool,
}

/// Proxy configuration
#[derive(Debug, Clone)]
pub struct ProxyConfig {
    /// Proxy URL
    pub url: String,
    /// Username for authentication
    pub username: Option<String>,
    /// Password for authentication
    pub password: Option<String>,
}

/// Network configuration settings
#[derive(Debug, Clone)]
pub struct NetworkConfig {
    /// Connection timeout in seconds
    pub connect_timeout: u64,
    /// Read timeout in seconds
    pub read_timeout: u64,
    /// Maximum number of redirects to follow
    pub max_redirects: usize,
    /// Maximum number of retry attempts
    pub max_retries: usize,
    /// Retry delay in milliseconds
    pub retry_delay: u64,
    /// Maximum number of concurrent chunks per download
    pub max_concurrent_chunks: usize,
    /// Chunk size for parallel downloads (in bytes)
    pub chunk_size: usize,
    /// Enable HTTP/2
    pub http2: bool,
    /// Enable HTTP/3 (QUIC)
    pub http3: bool,
    /// Proxy configuration
    pub proxy: Option<ProxyConfig>,
}

/// Cache configuration settings
#[derive(Debug, Clone)]
pub struct CacheConfig {
    /// Enable caching
    pub enabled: bool,
    /// Cache directory
    pub cache_dir: String,
    /// Maximum cache size in bytes
    pub max_size: u64,
    /// Cache TTL in seconds
    pub ttl: u64,
    /// Enable compression for cached files
    pub compression: bool,
    /// Cache cleanup interval in seconds
    pub cleanup_interval: u64,
}

/// GitHub configuration
#[derive(Debug, Clone)]
pub struct GitHubConfig {
    /// Enable GitHub source
    pub enabled: bool,
    /// GitHub API token (optional)
    pub token: Option<String>,
    /// API base URL
    pub api_base_url: String,
    /// Rate limit (requests per hour)
    pub rate_limit: usize,
    /// Priority (lower = higher priority)
    pub priority: u8,
}

/// jsDelivr configuration
#[derive(Debug, Clone)]
pub struct JsDelivrConfig {
    /// Enable jsDelivr source
    pub enabled: bool,
    /// Base URL
    pub base_url: String,
    /// Priority
    pub priority: u8,
}

/// Fastly configuration
#[derive(Debug, Clone)]
pub struct FastlyConfig {
    /// Enable Fastly source
    pub enabled: bool,
    /// Base URL
    pub base_url: String,
    /// Priority
    pub priority: u8,
}

/// Cloudflare configuration
#[derive(Debug, Clone)]
pub struct CloudflareConfig {
    /// Enable Cloudflare source
    pub enabled: bool,
    /// Base URL
    pub base_url: String,
    /// Priority
    pub priority: u8,
}

/// Custom source configuration
#[derive(Debug, Clone)]
pub struct CustomSourceConfig {
    /// Source name
    pub name: String,
    /// Enable this source
    pub enabled: bool,
    /// Base URL
    pub base_url: String,
    /// Priority
    pub priority: u8,
    /// Custom headers
    pub headers: HashMap<String, String>,
}

/// Download sources configuration
#[derive(Debug, Clone)]
pub struct SourcesConfig {
    /// GitHub configuration
    pub github: GitHubConfig,
    /// jsDelivr configuration
    pub jsdelivr: JsDelivrConfig,
    /// Fastly configuration
    pub fastly: FastlyConfig,
    /// Cloudflare configuration
    pub cloudflare: CloudflareConfig,
    /// Custom sources
    pub custom: Vec<CustomSourceConfig>,
}

/// Data protection configuration
#[derive(Debug, Clone)]
pub struct DataProtectionConfig {
    /// Minimize data collection
    pub minimal_data_collection: bool,
    /// Require user consent
    pub user_consent_required: bool,
    /// Data retention period in days
    pub data_retention_days: u32,
    /// Anonymize collected data
    pub anonymize_data: bool,
}

/// Compliance configuration
#[derive(Debug, Clone)]
pub struct ComplianceConfig {
    /// Enable strict compliance mode
    pub strict_mode: bool,
    /// Verify open source licenses
    pub verify_open_source: bool,
    /// Check for copyright violations
    pub check_copyright: bool,
    /// Validate source authenticity
    pub validate_source: bool,
    /// Enable audit logging
    pub audit_logging: bool,
    /// Audit log file path
    pub audit_log_path: String,
    /// Data protection settings
    pub data_protection: DataProtectionConfig,
}

/// Logging configuration
#[derive(Debug, Clone)]
pub struct LoggingConfig {
    /// Log level
    pub level: String,
    /// Log file path (optional)
    pub file_path: Option<String>,
    /// Enable console logging
    pub console: bool,
    /// Log format
    pub format: LogFormat,
}

/// Metrics configuration
#[derive(Debug, Clone)]
pub struct MetricsConfig {
    /// Enable metrics collection
    pub enabled: bool,
    /// Metrics export interval in seconds
    pub export_interval: u64,
    /// Metrics storage path
    pub storage_path: String,
}

/// Main configuration structure for Turbo CDN
#[derive(Debug, Clone)]
pub struct TurboCdnConfig {
    /// General settings
    pub general: GeneralConfig,
    /// Network settings
    pub network: NetworkConfig,
    /// Cache settings
    pub cache: CacheConfig,
    /// Download sources configuration
    pub sources: SourcesConfig,
    /// Compliance settings
    pub compliance: ComplianceConfig,
    /// Logging configuration
    pub logging: LoggingConfig,
    /// Metrics configuration
    pub metrics: MetricsConfig,
}

// ---------------------------------------------------------------------------
// Platform directories
// ---------------------------------------------------------------------------

/// `dirs::download_dir`: the user's download directory, if the platform
/// has one. Its value depends on the machine and the environment; nothing is
/// stated of it.
#[verifier::external_body]
fn platform_download_dir() -> (dir: Option<String>) {
    dirs::download_dir().map(|p| p.to_string_lossy().into_owned())
}

/// `dirs::cache_dir`: the user's cache directory, if the platform has one.
/// Its value depends on the machine and the environment; nothing is stated
/// of it.
#[verifier::external_body]
fn platform_cache_dir() -> (dir: Option<String>) {
    dirs::cache_dir().map(|p| p.to_string_lossy().into_owned())
}

/// Whether a path starts with a Windows verbatim prefix (`\\?\`, as in
/// `\\?\C:\x` or `\\?\UNC\server\share`).
pub open spec fn has_verbatim_prefix(p: Seq<char>) -> bool {
    seq_starts_with(p, "\\\\?\\"@)
}

/// `Path::join`: `base` with `child` adjoined (`PathBuf::push`). Whether a
/// separator goes between them, and what an absolute `child` replaces, is the
/// platform's. Onto a base with a verbatim prefix the child is normalised
/// (`.` and `..` dropped, `/` turned into `\`), so only for other bases is
/// it stated that the joined path ends with `child`.
#[verifier::external_body]
pub(crate) fn join_path(base: &str, child: &str) -> (joined: String)
    ensures
        !has_verbatim_prefix(base@) ==> seq_ends_with(joined@, child@),
{
    std::path::Path::new(base).join(child).to_string_lossy().into_owned()
}

/// The directory found on the platform, or `fallback` where none was found.
pub fn dir_or(found: Option<String>, fallback: &str) -> (dir: String)
    ensures
        found matches Some(d) ==> dir@ == d@,
        found is None ==> dir@ == fallback@,
{
    match found {
        Some(d) => d,
        None => owned(fallback),
    }
}

/// The directory text that [`dir_or`] gives.
pub open spec fn found_or(found: Option<String>, fallback: Seq<char>) -> Seq<char> {
    match found {
        Some(d) => d@,
        None => fallback,
    }
}

/// The cache directory for the platform's cache directory `found`: a
/// `turbo-cdn` directory in it, or in `./cache` where the platform has none.
pub fn cache_dir_in(found: Option<String>) -> (dir: String)
    ensures
        !has_verbatim_prefix(found_or(found, "./cache"@)) ==> seq_ends_with(dir@, "turbo-cdn"@),
{
    let base = dir_or(found, "./cache");
    join_path(base.as_str(), "turbo-cdn")
}

// ---------------------------------------------------------------------------
// Defaults
// ---------------------------------------------------------------------------

impl Default for GeneralConfig {
    /// The platform's download directory (`./downloads` where it has none),
    /// four concurrent downloads, the global region.
    fn default() -> (c: GeneralConfig)
        ensures
            c.user_agent@ == "turbo-cdn/"@ + PACKAGE_VERSION@,
            c.max_concurrent_downloads == 4,
            c.default_region == Region::Global,
            !c.debug,
    {
        GeneralConfig {
            user_agent: concat2("turbo-cdn/", PACKAGE_VERSION),
            download_dir: dir_or(platform_download_dir(), "./downloads"),
            max_concurrent_downloads: 4,
            default_region: Region::Global,
            debug: false,
        }
    }
}

impl Default for NetworkConfig {
    fn default() -> (c: NetworkConfig)
        ensures
            c.connect_timeout == 30,
            c.read_timeout == 60,
            c.max_redirects == 10,
            c.max_retries == 3,
            c.retry_delay == 1000,
            c.max_concurrent_chunks == 8,
            c.chunk_size == 1024 * 1024,
            c.http2,
            !c.http3,
            c.proxy is None,
    {
        NetworkConfig {
            connect_timeout: 30,
            read_timeout: 60,
            max_redirects: 10,
            max_retries: 3,
            retry_delay: 1000,
            max_concurrent_chunks: 8,
            chunk_size: 1024 * 1024,
            http2: true,
            http3: false,
            proxy: None,
        }
    }
}

impl Default for CacheConfig {
    /// A `turbo-cdn` directory in the platform's cache directory (in
    /// `./cache` where it has none), 1 GiB, a day's TTL, hourly cleanup.
    fn default() -> (c: CacheConfig)
        ensures
            c.enabled,
            c.max_size == 1024 * 1024 * 1024,
            c.ttl == 24 * 60 * 60,
            c.compression,
            c.cleanup_interval == 60 * 60,
    {
        CacheConfig {
            enabled: true,
            cache_dir: cache_dir_in(platform_cache_dir()),
            max_size: 1024 * 1024 * 1024,
            ttl: 24 * 60 * 60,
            compression: true,
            cleanup_interval: 60 * 60,
        }
    }
}

impl Default for GitHubConfig {
    fn default() -> (c: GitHubConfig)
        ensures
            c.enabled,
            c.token is None,
            c.api_base_url@ == "https://api.github.com"@,
            c.rate_limit == 5000,
            c.priority == 1,
    {
        GitHubConfig {
            enabled: true,
            token: None,
            api_base_url: owned("https://api.github.com"),
            rate_limit: 5000,
            priority: 1,
        }
    }
}

impl Default for JsDelivrConfig {
    fn default() -> (c: JsDelivrConfig)
        ensures
            c.enabled,
            c.base_url@ == "https://cdn.jsdelivr.net"@,
            c.priority == 2,
    {
        JsDelivrConfig { enabled: true, base_url: owned("https://cdn.jsdelivr.net"), priority: 2 }
    }
}

impl Default for FastlyConfig {
    fn default() -> (c: FastlyConfig)
        ensures
            c.enabled,
            c.base_url@ == "https://fastly.jsdelivr.net"@,
            c.priority == 3,
    {
        FastlyConfig { enabled: true, base_url: owned("https://fastly.jsdelivr.net"), priority: 3 }
    }
}

impl Default for CloudflareConfig {
    fn default() -> (c: CloudflareConfig)
        ensures
            c.enabled,
            c.base_url@ == "https://cdnjs.cloudflare.com"@,
            c.priority == 4,
    {
        CloudflareConfig { enabled: true, base_url: owned("https://cdnjs.cloudflare.com"), priority: 4 }
    }
}

impl Default for SourcesConfig {
    fn default() -> (c: SourcesConfig)
        ensures
            c.github.enabled && c.jsdelivr.enabled && c.fastly.enabled && c.cloudflare.enabled,
            c.github.priority == 1 && c.jsdelivr.priority == 2,
            c.fastly.priority == 3 && c.cloudflare.priority == 4,
            c.custom@.len() == 0,
    {
        SourcesConfig {
            github: GitHubConfig::default(),
            jsdelivr: JsDelivrConfig::default(),
            fastly: FastlyConfig::default(),
            cloudflare: CloudflareConfig::default(),
            custom: Vec::new(),
        }
    }
}

impl Default for DataProtectionConfig {
    fn default() -> (c: DataProtectionConfig)
        ensures
            c.minimal_data_collection,
            c.user_consent_required,
            c.data_retention_days == 30,
            c.anonymize_data,
    {
        DataProtectionConfig {
            minimal_data_collection: true,
            user_consent_required: true,
            data_retention_days: 30,
            anonymize_data: true,
        }
    }
}

impl Default for ComplianceConfig {
    fn default() -> (c: ComplianceConfig)
        ensures
            c.strict_mode && c.verify_open_source && c.check_copyright,
            c.validate_source && c.audit_logging,
            c.audit_log_path@ == "./audit.log"@,
            c.data_protection.data_retention_days == 30,
            c.data_protection.minimal_data_collection,
            c.data_protection.user_consent_required,
            c.data_protection.anonymize_data,
    {
        ComplianceConfig {
            strict_mode: true,
            verify_open_source: true,
            check_copyright: true,
            validate_source: true,
            audit_logging: true,
            audit_log_path: owned("./audit.log"),
            data_protection: DataProtectionConfig::default(),
        }
    }
}

impl Default for LoggingConfig {
    fn default() -> (c: LoggingConfig)
        ensures
            c.level@ == "info"@,
            c.file_path is None,
            c.console,
            c.format == LogFormat::Human,
    {
        LoggingConfig { level: owned("info"), file_path: None, console: true, format: LogFormat::Human }
    }
}

impl Default for MetricsConfig {
    fn default() -> (c: MetricsConfig)
        ensures
            c.enabled,
            c.export_interval == 60,
            c.storage_path@ == "./metrics"@,
    {
        MetricsConfig { enabled: true, export_interval: 60, storage_path: owned("./metrics") }
    }
}

impl Default for TurboCdnConfig {
    fn default() -> (c: TurboCdnConfig)
        ensures
            c.general.max_concurrent_downloads == 4,
            c.general.default_region == Region::Global,
            c.network.connect_timeout == 30,
            c.network.read_timeout == 60,
            c.network.max_concurrent_chunks == 8,
            c.network.chunk_size == 1024 * 1024,
            c.cache.enabled,
            c.cache.max_size == 1024 * 1024 * 1024,
            c.sources.github.enabled,
            c.sources.custom@.len() == 0,
            c.compliance.strict_mode,
            c.logging.level@ == "info"@,
            c.metrics.enabled,
            sections_violation(c) is None,
    {
        TurboCdnConfig {
            general: GeneralConfig::default(),
            network: NetworkConfig::default(),
            cache: CacheConfig::default(),
            sources: SourcesConfig::default(),
            compliance: ComplianceConfig::default(),
            logging: LoggingConfig::default(),
            metrics: MetricsConfig::default(),
        }
    }
}

// ---------------------------------------------------------------------------
// Validation
// ---------------------------------------------------------------------------

/// Whether at least one download source is enabled.
pub open spec fn any_source_enabled(s: SourcesConfig) -> bool {
    s.github.enabled || s.jsdelivr.enabled || s.fastly.enabled || s.cloudflare.enabled
        || exists|i: int| 0 <= i < s.custom@.len() && (#[trigger] s.custom@[i]).enabled
}

/// The first rule a configuration breaks, as the message of its error, or
/// `None` when it satisfies every rule.
pub open spec fn sections_violation(c: TurboCdnConfig) -> Option<Seq<char>> {
    if c.network.connect_timeout == 0 {
        Some("Connect timeout must be greater than 0"@)
    } else if c.network.read_timeout == 0 {
        Some("Read timeout must be greater than 0"@)
    } else if c.network.max_concurrent_chunks == 0 {
        Some("Max concurrent chunks must be greater than 0"@)
    } else if c.network.chunk_size == 0 {
        Some("Chunk size must be greater than 0"@)
    } else if c.cache.enabled && c.cache.max_size == 0 {
        Some("Cache max size must be greater than 0 when caching is enabled"@)
    } else if !any_source_enabled(c.sources) {
        Some("At least one download source must be enabled"@)
    } else {
        None
    }
}

/// Whether some custom source is enabled.
fn any_custom_enabled(custom: &Vec<CustomSourceConfig>) -> (r: bool)
    ensures
        r == exists|i: int| 0 <= i < custom@.len() && (#[trigger] custom@[i]).enabled,
{
    let mut i: usize = 0;
    while i < custom.len()
        invariant
            i <= custom.len(),
            forall|k: int| 0 <= k < i ==> !(#[trigger] custom@[k]).enabled,
        decreases custom.len() - i,
    {
        if custom[i].enabled {
            return true;
        }
        i = i + 1;
    }
    false
}

impl TurboCdnConfig {
    /// Validate configuration: the first rule it breaks is reported as a
    /// configuration error.
    pub fn validate(&self) -> (r: Result<(), TurboCdnError>)
        ensures
            r is Ok <==> sections_violation(*self) is None,
            r matches Err(e) ==> (e matches TurboCdnError::Config { message }
                && sections_violation(*self) == Some(message@)),
    {
        if self.network.connect_timeout == 0 {
            return Err(TurboCdnError::config("Connect timeout must be greater than 0"));
        }
        if self.network.read_timeout == 0 {
            return Err(TurboCdnError::config("Read timeout must be greater than 0"));
        }
        if self.network.max_concurrent_chunks == 0 {
            return Err(TurboCdnError::config("Max concurrent chunks must be greater than 0"));
        }
        if self.network.chunk_size == 0 {
            return Err(TurboCdnError::config("Chunk size must be greater than 0"));
        }
        if self.cache.enabled && self.cache.max_size == 0 {
            return Err(TurboCdnError::config(
                "Cache max size must be greater than 0 when caching is enabled",
            ));
        }
        let sources_enabled = self.sources.github.enabled || self.sources.jsdelivr.enabled
            || self.sources.fastly.enabled || self.sources.cloudflare.enabled
            || any_custom_enabled(&self.sources.custom);
        if !sources_enabled {
            return Err(TurboCdnError::config("At least one download source must be enabled"));
        }
        Ok(())
    }

    /// Get connection timeout as Duration
    pub fn connect_timeout(&self) -> (d: Duration)
        ensures
            d == duration_of_secs(self.network.connect_timeout),
    {
        duration_from_secs(self.network.connect_timeout)
    }

    /// Get read timeout as Duration
    pub fn read_timeout(&self) -> (d: Duration)
        ensures
            d == duration_of_secs(self.network.read_timeout),
    {
        duration_from_secs(self.network.read_timeout)
    }

    /// Get retry delay as Duration
    pub fn retry_delay(&self) -> (d: Duration)
        ensures
            d == duration_of_millis(self.network.retry_delay),
    {
        duration_from_millis(self.network.retry_delay)
    }
}

} // verus!
