//! Configuration of the download engine: general settings, performance
//! tuning, security, geographic detection, test targets and URL mapping rules,
//! with the defaults the engine starts from.
//!
//! Loading a configuration from files and environment variables is I/O and is
//! done by the application; the library holds the values and their defaults.
use vstd::prelude::*;
use crate::text::{owned, str_eq, string_views};

pub mod manager;
pub mod models;
pub mod sections;

verus! {

/// The package version that default user agents carry.
pub const PACKAGE_VERSION: &'static str = "0.1.0";

// ---------------------------------------------------------------------------
// Regions
// ---------------------------------------------------------------------------

/// Geographic region used for mirror selection.
#[derive(Debug, Clone, PartialEq, Eq, Hash)]
pub enum Region {
    China,
    Asia,
    Global,
    AsiaPacific,
    Europe,
    NorthAmerica,
    Custom(String),
}

/// The mathematical model of a region: a custom region is its name.
pub enum RegionView {
    China,
    Asia,
    Global,
    AsiaPacific,
    Europe,
    NorthAmerica,
    Custom(Seq<char>),
}

impl View for Region {
    type V = RegionView;

    open spec fn view(&self) -> RegionView {
        match self {
            Region::China => RegionView::China,
            Region::Asia => RegionView::Asia,
            Region::Global => RegionView::Global,
            Region::AsiaPacific => RegionView::AsiaPacific,
            Region::Europe => RegionView::Europe,
            Region::NorthAmerica => RegionView::NorthAmerica,
            Region::Custom(name) => RegionView::Custom(name@),
        }
    }
}

/// The text a region is displayed as.
pub open spec fn region_text(r: RegionView) -> Seq<char> {
    match r {
        RegionView::China => "China"@,
        RegionView::Asia => "Asia"@,
        RegionView::Global => "Global"@,
        RegionView::AsiaPacific => "AsiaPacific"@,
        RegionView::Europe => "Europe"@,
        RegionView::NorthAmerica => "NorthAmerica"@,
        RegionView::Custom(name) => name,
    }
}

/// Whether `s` is the name of one of the predefined regions.
pub open spec fn is_predefined_region_name(s: Seq<char>) -> bool {
    s == "China"@ || s == "Asia"@ || s == "Global"@ || s == "AsiaPacific"@
        || s == "Europe"@ || s == "NorthAmerica"@
}

/// The region a text names: a predefined name gives that region, any other
/// text a custom region of that name.
pub open spec fn region_of_text(s: Seq<char>) -> RegionView {
    if s == "China"@ {
        RegionView::China
    } else if s == "Asia"@ {
        RegionView::Asia
    } else if s == "Global"@ {
        RegionView::Global
    } else if s == "AsiaPacific"@ {
        RegionView::AsiaPacific
    } else if s == "Europe"@ {
        RegionView::Europe
    } else if s == "NorthAmerica"@ {
        RegionView::NorthAmerica
    } else {
        RegionView::Custom(s)
    }
}

impl Region {
    /// Parses a region name. Every text is accepted: names other than the
    /// predefined ones become custom regions.
    pub fn parse(s: &str) -> (r: Region)
        ensures
            r@ == region_of_text(s@),
    {
        if str_eq(s, "China") {
            Region::China
        } else if str_eq(s, "Asia") {
            Region::Asia
        } else if str_eq(s, "Global") {
            Region::Global
        } else if str_eq(s, "AsiaPacific") {
            Region::AsiaPacific
        } else if str_eq(s, "Europe") {
            Region::Europe
        } else if str_eq(s, "NorthAmerica") {
            Region::NorthAmerica
        } else {
            Region::Custom(owned(s))
        }
    }

    /// The text the region is displayed as.
    pub fn to_display_string(&self) -> (s: String)
        ensures
            s@ == region_text(self@),
    {
        match self {
            Region::China => owned("China"),
            Region::Asia => owned("Asia"),
            Region::Global => owned("Global"),
            Region::AsiaPacific => owned("AsiaPacific"),
            Region::Europe => owned("Europe"),
            Region::NorthAmerica => owned("NorthAmerica"),
            Region::Custom(name) => owned(name.as_str()),
        }
    }

    /// A copy of the region.
    pub fn duplicate(&self) -> (r: Region)
        ensures
            r@ == self@,
    {
        match self {
            Region::China => Region::China,
            Region::Asia => Region::Asia,
            Region::Global => Region::Global,
            Region::AsiaPacific => Region::AsiaPacific,
            Region::Europe => Region::Europe,
            Region::NorthAmerica => Region::NorthAmerica,
            Region::Custom(name) => Region::Custom(owned(name.as_str())),
        }
    }
}

impl Default for Region {
    fn default() -> (r: Region)
        ensures
            r@ == RegionView::Global,
    {
        Region::Global
    }
}

impl std::str::FromStr for Region {
    type Err = String;

    fn from_str(s: &str) -> (r: std::result::Result<Region, String>)
        ensures
            r matches Ok(region) && region@ == region_of_text(s@),
    {
        Ok(Region::parse(s))
    }
}

/// Displaying a parsed text gives the text back, whatever it was.
pub proof fn lemma_region_text_round_trip(s: Seq<char>)
    ensures
        region_text(region_of_text(s)) == s,
{
}

/// Parsing the display text of a region gives the region back, unless it is
/// a custom region that carries a predefined name.
pub proof fn lemma_region_parse_round_trip(r: RegionView)
    requires
        !(r is Custom && is_predefined_region_name(r->Custom_0)),
    ensures
        region_of_text(region_text(r)) == r,
{
    reveal_strlit("China");
    reveal_strlit("Asia");
    reveal_strlit("Global");
    reveal_strlit("AsiaPacific");
    reveal_strlit("Europe");
    reveal_strlit("NorthAmerica");
    assert("Asia"@ != "China"@) by { assert("Asia"@.len() != "China"@.len()); }
    assert("Global"@ != "China"@) by { assert("Global"@[0] != "China"@[0]); }
    assert("Global"@ != "Asia"@) by { assert("Global"@.len() != "Asia"@.len()); }
    assert("AsiaPacific"@ != "China"@) by { assert("AsiaPacific"@.len() != "China"@.len()); }
    assert("AsiaPacific"@ != "Asia"@) by { assert("AsiaPacific"@.len() != "Asia"@.len()); }
    assert("AsiaPacific"@ != "Global"@) by { assert("AsiaPacific"@.len() != "Global"@.len()); }
    assert("Europe"@ != "China"@) by { assert("Europe"@[0] != "China"@[0]); }
    assert("Europe"@ != "Asia"@) by { assert("Europe"@.len() != "Asia"@.len()); }
    assert("Europe"@ != "Global"@) by { assert("Europe"@[0] != "Global"@[0]); }
    assert("Europe"@ != "AsiaPacific"@) by { assert("Europe"@.len() != "AsiaPacific"@.len()); }
    assert("NorthAmerica"@ != "China"@) by { assert("NorthAmerica"@.len() != "China"@.len()); }
    assert("NorthAmerica"@ != "Asia"@) by { assert("NorthAmerica"@.len() != "Asia"@.len()); }
    assert("NorthAmerica"@ != "Global"@) by { assert("NorthAmerica"@.len() != "Global"@.len()); }
    assert("NorthAmerica"@ != "AsiaPacific"@) by { assert("NorthAmerica"@[0] != "AsiaPacific"@[0]); }
    assert("NorthAmerica"@ != "Europe"@) by { assert("NorthAmerica"@.len() != "Europe"@.len()); }
}

// ---------------------------------------------------------------------------
// Configuration sections
// ---------------------------------------------------------------------------

/// A URL mapping rule as written in the configuration.
#[derive(Debug, Clone)]
pub struct UrlMappingRuleConfig {
    /// Rule name
    pub name: String,
    /// Regex pattern to match URLs
    pub pattern: String,
    /// Replacement URLs (templates)
    pub replacements: Vec<String>,
    /// Regions where this rule applies
    pub regions: Vec<Region>,
    /// Priority (lower = higher priority)
    pub priority: u32,
    /// Whether this rule is enabled
    pub enabled: bool,
}

/// General configuration
#[derive(Debug, Clone)]
pub struct GeneralConfig {
    /// Enable debug mode
    pub debug: bool,
    /// Default region
    pub default_region: Region,
    /// User agent string
    pub user_agent: String,
    /// Enable URL mapping cache
    pub enable_url_cache: bool,
    /// URL cache TTL in seconds
    pub url_cache_ttl: u64,
    /// Maximum cache entries
    pub max_cache_entries: usize,
}

/// Performance configuration.
///
/// The congestion threshold is a fraction; it is held in thousandths
/// (`300` stands for `0.3`).
#[derive(Debug, Clone)]
pub struct PerformanceConfig {
    /// Maximum concurrent downloads
    pub max_concurrent_downloads: usize,
    /// Chunk size for downloads
    pub chunk_size: u64,
    /// Request timeout in seconds
    pub timeout: u64,
    /// Retry attempts
    pub retry_attempts: usize,
    /// Enable adaptive chunking
    pub adaptive_chunking: bool,
    /// Connection pool max idle connections per host
    pub pool_max_idle_per_host: usize,
    /// Connection pool idle timeout in seconds
    pub pool_idle_timeout: u64,
    /// TCP keepalive in seconds
    pub tcp_keepalive: u64,
    /// Enable HTTP/2 prior knowledge
    pub http2_prior_knowledge: bool,
    /// Minimum chunk size
    pub min_chunk_size: u64,
    /// Maximum chunk size
    pub max_chunk_size: u64,
    /// Speed threshold for adaptive chunking
    pub speed_threshold_bytes_per_sec: u64,
    /// Enable adaptive concurrency control
    pub adaptive_concurrency: Option<bool>,
    /// Minimum concurrent downloads
    pub min_concurrent_downloads: Option<u32>,
    /// Maximum concurrent downloads limit
    pub max_concurrent_downloads_limit: Option<u32>,
    /// Network congestion threshold, in thousandths
    pub network_congestion_threshold_permille: Option<u32>,
    /// Enable DNS caching
    pub dns_cache_enabled: Option<bool>,
    /// DNS cache TTL in seconds
    pub dns_cache_ttl_seconds: Option<u64>,
    /// DNS cache max entries
    pub dns_cache_max_entries: Option<usize>,
    /// Enable smart chunking
    pub smart_chunking_enabled: Option<bool>,
    /// Chunk performance history size
    pub chunk_performance_history_size: Option<usize>,
}

/// Security configuration
#[derive(Debug, Clone)]
pub struct SecurityConfig {
    /// Verify SSL certificates
    pub verify_ssl: bool,
    /// Allowed protocols
    pub allowed_protocols: Vec<String>,
}

/// Geographic detection configuration
#[derive(Debug, Clone)]
pub struct GeoDetectionConfig {
    /// IP detection APIs
    pub ip_apis: Vec<String>,
    /// IP detection timeout in seconds
    pub ip_detection_timeout: u64,
    /// Enable automatic region detection
    pub auto_detect_region: bool,
}

/// Testing configuration
#[derive(Debug, Clone)]
pub struct TestingConfig {
    /// Test URLs for performance testing
    pub test_urls: Vec<String>,
    /// Speed test file sizes
    pub speed_test_sizes: Vec<u64>,
}

/// Main configuration structure
#[derive(Debug, Clone)]
pub struct TurboCdnConfig {
    /// General settings
    pub general: GeneralConfig,
    /// Performance settings
    pub performance: PerformanceConfig,
    /// Security settings
    pub security: SecurityConfig,
    /// Geographic detection settings
    pub geo_detection: GeoDetectionConfig,
    /// Testing settings
    pub testing: TestingConfig,
    /// URL mapping rules
    pub url_mapping_rules: Vec<UrlMappingRuleConfig>,
}

// ---------------------------------------------------------------------------
// Defaults
// ---------------------------------------------------------------------------

/// The default user agent: the package name and version.
pub open spec fn default_user_agent_text() -> Seq<char> {
    "turbo-cdn/"@ + PACKAGE_VERSION@
}

impl Default for GeneralConfig {
    fn default() -> (c: GeneralConfig)
        ensures
            !c.debug,
            c.default_region@ == RegionView::Global,
            c.user_agent@ == default_user_agent_text(),
            c.enable_url_cache,
            c.url_cache_ttl == 3600,
            c.max_cache_entries == 1000,
    {
        GeneralConfig {
            debug: false,
            default_region: Region::Global,
            user_agent: crate::text::concat2("turbo-cdn/", PACKAGE_VERSION),
            enable_url_cache: true,
            url_cache_ttl: 3600,
            max_cache_entries: 1000,
        }
    }
}

impl Default for PerformanceConfig {
    fn default() -> (c: PerformanceConfig)
        ensures
            c.max_concurrent_downloads == 32,
            c.chunk_size == 1024 * 1024,
            c.timeout == 30,
            c.retry_attempts == 3,
            c.adaptive_chunking,
            c.pool_max_idle_per_host == 50,
            c.pool_idle_timeout == 90,
            c.tcp_keepalive == 60,
            c.http2_prior_knowledge,
            c.min_chunk_size == 128 * 1024,
            c.max_chunk_size == 5 * 1024 * 1024,
            c.speed_threshold_bytes_per_sec == 1024 * 1024,
            c.adaptive_concurrency == Some(true),
            c.min_concurrent_downloads == Some(8u32),
            c.max_concurrent_downloads_limit == Some(64u32),
            c.network_congestion_threshold_permille == Some(300u32),
            c.dns_cache_enabled == Some(true),
            c.dns_cache_ttl_seconds == Some(300u64),
            c.dns_cache_max_entries == Some(1000usize),
            c.smart_chunking_enabled == Some(true),
            c.chunk_performance_history_size == Some(100usize),
    {
        PerformanceConfig {
            max_concurrent_downloads: 32,
            chunk_size: 1024 * 1024,
            timeout: 30,
            retry_attempts: 3,
            adaptive_chunking: true,
            pool_max_idle_per_host: 50,
            pool_idle_timeout: 90,
            tcp_keepalive: 60,
            http2_prior_knowledge: true,
            min_chunk_size: 128 * 1024,
            max_chunk_size: 5 * 1024 * 1024,
            speed_threshold_bytes_per_sec: 1024 * 1024,
            adaptive_concurrency: Some(true),
            min_concurrent_downloads: Some(8),
            max_concurrent_downloads_limit: Some(64),
            network_congestion_threshold_permille: Some(300),
            dns_cache_enabled: Some(true),
            dns_cache_ttl_seconds: Some(300),
            dns_cache_max_entries: Some(1000),
            smart_chunking_enabled: Some(true),
            chunk_performance_history_size: Some(100),
        }
    }
}

impl Default for SecurityConfig {
    fn default() -> (c: SecurityConfig)
        ensures
            c.verify_ssl,
            string_views(c.allowed_protocols@) == seq!["https"@, "http"@],
    {
        let protocols = vec![owned("https"), owned("http")];
        let c = SecurityConfig { verify_ssl: true, allowed_protocols: protocols };
        assert(string_views(c.allowed_protocols@) =~= seq!["https"@, "http"@]);
        c
    }
}

impl Default for GeoDetectionConfig {
    fn default() -> (c: GeoDetectionConfig)
        ensures
            string_views(c.ip_apis@) == seq![
                "https://ipapi.co/json/"@,
                "https://ip-api.com/json/"@,
                "https://ipinfo.io/json"@,
                "https://api.ipify.org?format=json"@,
            ],
            c.ip_apis@.len() == 4,
            c.ip_detection_timeout == 5,
            c.auto_detect_region,
    {
        let apis = vec![
            owned("https://ipapi.co/json/"),
            owned("https://ip-api.com/json/"),
            owned("https://ipinfo.io/json"),
            owned("https://api.ipify.org?format=json"),
        ];
        let c = GeoDetectionConfig { ip_apis: apis, ip_detection_timeout: 5, auto_detect_region: true };
        assert(string_views(c.ip_apis@) =~= seq![
            "https://ipapi.co/json/"@,
            "https://ip-api.com/json/"@,
            "https://ipinfo.io/json"@,
            "https://api.ipify.org?format=json"@,
        ]);
        c
    }
}

impl Default for TestingConfig {
    fn default() -> (c: TestingConfig)
        ensures
            string_views(c.test_urls@) == seq![
                "https://github.com/BurntSushi/ripgrep/releases/download/14.1.1/ripgrep-14.1.1-x86_64-pc-windows-msvc.zip"@,
                "https://cdn.jsdelivr.net/npm/jquery@3.6.0/dist/jquery.min.js"@,
            ],
            c.test_urls@.len() == 2,
            c.speed_test_sizes@ == seq![1048576u64, 10485760u64, 104857600u64],
    {
        let urls = vec![
            owned("https://github.com/BurntSushi/ripgrep/releases/download/14.1.1/ripgrep-14.1.1-x86_64-pc-windows-msvc.zip"),
            owned("https://cdn.jsdelivr.net/npm/jquery@3.6.0/dist/jquery.min.js"),
        ];
        let sizes: Vec<u64> = vec![1048576, 10485760, 104857600];
        let c = TestingConfig { test_urls: urls, speed_test_sizes: sizes };
        assert(string_views(c.test_urls@) =~= seq![
            "https://github.com/BurntSushi/ripgrep/releases/download/14.1.1/ripgrep-14.1.1-x86_64-pc-windows-msvc.zip"@,
            "https://cdn.jsdelivr.net/npm/jquery@3.6.0/dist/jquery.min.js"@,
        ]);
        c
    }
}

impl Default for TurboCdnConfig {
    fn default() -> (c: TurboCdnConfig)
        ensures
            c.general.default_region@ == RegionView::Global,
            c.general.user_agent@ == default_user_agent_text(),
            c.general.url_cache_ttl == 3600,
            c.general.max_cache_entries == 1000,
            c.general.enable_url_cache && !c.general.debug,
            c.performance.max_concurrent_downloads == 32,
            c.performance.chunk_size == 1024 * 1024,
            c.performance.timeout == 30,
            c.performance.retry_attempts == 3,
            c.performance.min_chunk_size == 128 * 1024,
            c.performance.max_chunk_size == 5 * 1024 * 1024,
            c.performance.min_concurrent_downloads == Some(8u32),
            c.performance.max_concurrent_downloads_limit == Some(64u32),
            c.performance.network_congestion_threshold_permille == Some(300u32),
            c.security.verify_ssl,
            string_views(c.security.allowed_protocols@) == seq!["https"@, "http"@],
            c.geo_detection.ip_detection_timeout == 5,
            c.geo_detection.auto_detect_region,
            c.geo_detection.ip_apis@.len() == 4,
            c.testing.test_urls@.len() == 2,
            c.testing.speed_test_sizes@ == seq![1048576u64, 10485760u64, 104857600u64],
            c.url_mapping_rules@.len() == 0,
    {
        TurboCdnConfig {
            general: GeneralConfig::default(),
            performance: PerformanceConfig::default(),
            security: SecurityConfig::default(),
            geo_detection: GeoDetectionConfig::default(),
            testing: TestingConfig::default(),
            url_mapping_rules: Vec::new(),
        }
    }
}

} // verus!
