//! Compliance checking for downloads: user consent, the trusted-domain
//! rules, blocked content patterns and open-source licences, each adding a
//! reason and raising the risk level of a request it rejects.
//!
//! A check runs in two steps around one piece of outside work. The local
//! rules are decided by [`ComplianceChecker::check_local`]; where
//! [`ComplianceChecker::needs_license_check`] asks for it, the application
//! looks the repository's licence up and hands the outcome to
//! [`ComplianceChecker::apply_license_outcome`]. Writing audit entries is
//! I/O, done by the application.
use vstd::prelude::*;
use crate::config::sections::ComplianceConfig;
use crate::domain_manager::{DomainManager, url_verdict, DomainEntryView};
use crate::url_parts::{parse_url_domain, url_domain_outcome};
use crate::error::{TurboCdnError, error_text};
use crate::pattern::{CompiledPattern, regex_compiles, regex_finds, regex_error_text};
use crate::text::{
    chars_ends_with, chars_of, concat2, concat3, owned, seq_ends_with, seq_contains, str_contains,
    str_eq, string_views, trim_end_all, trim_end_str, trim_start_all, trim_start_str,
};

verus! {

// ---------------------------------------------------------------------------
// Risk levels and audit events
// ---------------------------------------------------------------------------

/// Risk level assessment, from lowest to highest.
#[derive(Debug, Clone, Copy, PartialEq, Eq, PartialOrd, Ord)]
pub enum RiskLevel {
    Low,
    Medium,
    High,
    Critical,
}

/// The position of a risk level in the order `Low < Medium < High < Critical`.
pub open spec fn risk_rank(r: RiskLevel) -> nat {
    match r {
        RiskLevel::Low => 0,
        RiskLevel::Medium => 1,
        RiskLevel::High => 2,
        RiskLevel::Critical => 3,
    }
}

/// The higher of two risk levels.
pub open spec fn spec_max_risk(a: RiskLevel, b: RiskLevel) -> RiskLevel {
    if risk_rank(a) >= risk_rank(b) { a } else { b }
}

impl RiskLevel {
    /// The position of the level in the order `Low < Medium < High < Critical`.
    pub fn rank(&self) -> (r: u8)
        ensures
            r == risk_rank(*self),
    {
        match self {
            RiskLevel::Low => 0,
            RiskLevel::Medium => 1,
            RiskLevel::High => 2,
            RiskLevel::Critical => 3,
        }
    }

    /// The higher of two risk levels.
    pub fn max_of(a: RiskLevel, b: RiskLevel) -> (r: RiskLevel)
        ensures
            r == spec_max_risk(a, b),
    {
        if a.rank() >= b.rank() { a } else { b }
    }
}

/// Audit event types
#[derive(Debug, Clone, Copy, PartialEq, Eq, Structural)]
pub enum AuditEventType {
    ComplianceCheck,
    DownloadStarted,
    DownloadCompleted,
    DownloadFailed,
    PolicyViolation,
    UserConsentGranted,
    UserConsentRevoked,
}

/// Where audit entries go, and whether they are written at all.
#[derive(Debug, Clone)]
pub struct AuditLogger {
    /// The file audit entries are appended to
    pub log_path: String,
    /// Whether audit entries are written
    pub enabled: bool,
}

impl AuditLogger {
    /// An audit logger writing to `log_path` when `enabled`.
    pub fn new(log_path: &str, enabled: bool) -> (l: AuditLogger)
        ensures
            l.log_path@ == log_path@,
            l.enabled == enabled,
    {
        AuditLogger { log_path: owned(log_path), enabled }
    }
}

// ---------------------------------------------------------------------------
// Requests and results
// ---------------------------------------------------------------------------

/// Download request information. The identifier is the request's UUID as a
/// 128-bit number; the timestamp is in milliseconds since the Unix epoch.
#[derive(Debug, Clone)]
pub struct DownloadRequest {
    pub id: u128,
    pub url: String,
    pub source: String,
    pub repository: Option<String>,
    pub file_name: String,
    pub user_agent: String,
    pub timestamp: i64,
    pub user_consent: bool,
}

/// License information
#[derive(Debug, Clone)]
pub struct LicenseInfo {
    pub license_type: String,
    pub is_open_source: bool,
    pub allows_redistribution: bool,
    pub requires_attribution: bool,
    pub source_url: Option<String>,
}

/// Compliance check result. The timestamp is in milliseconds since the Unix
/// epoch.
#[derive(Debug, Clone)]
pub struct ComplianceResult {
    pub request_id: u128,
    pub approved: bool,
    pub reasons: Vec<String>,
    pub license_info: Option<LicenseInfo>,
    pub risk_level: RiskLevel,
    pub timestamp: i64,
}

// ---------------------------------------------------------------------------
// Licences
// ---------------------------------------------------------------------------

/// The licences recognised as open source.
pub open spec fn known_licenses() -> Seq<Seq<char>> {
    seq![
        "MIT"@, "Apache-2.0"@, "GPL-3.0"@, "GPL-2.0"@, "BSD-3-Clause"@, "BSD-2-Clause"@, "ISC"@,
        "MPL-2.0"@, "LGPL-3.0"@, "LGPL-2.1"@, "AGPL-3.0"@, "Unlicense"@, "CC0-1.0"@, "Zlib"@,
        "BSL-1.0"@, "WTFPL"@, "0BSD"@,
    ]
}

/// The `license` field of a GitHub repository description.
#[derive(Debug, Clone)]
pub enum GithubLicense {
    /// The description has no `license` field.
    Missing,
    /// The field is `null`.
    Null,
    /// The field is an object; its `key` and `name` where they are strings.
    Object { key: Option<String>, name: Option<String> },
}

/// The licence information of a repository whose licence is unknown.
pub open spec fn is_unknown_license(info: LicenseInfo, repository: Seq<char>) -> bool {
    &&& info.license_type@ == "Unknown"@
    &&& !info.is_open_source
    &&& !info.allows_redistribution
    &&& !info.requires_attribution
    &&& info.source_url matches Some(u) && u@ == repository
}

/// The text of an optional string, or `default` where there is none.
pub open spec fn text_or(o: Option<String>, default: Seq<char>) -> Seq<char> {
    match o {
        Some(s) => s@,
        None => default,
    }
}

/// The licence information that a GitHub `license` field describes, given
/// the list of licences recognised as open source.
pub open spec fn github_license_info_ok(
    known: Seq<Seq<char>>,
    license: GithubLicense,
    repository: Seq<char>,
    info: LicenseInfo,
) -> bool {
    match license {
        GithubLicense::Object { key, name } => {
            let k = text_or(key, "unknown"@);
            let n = text_or(name, "Unknown"@);
            let open = known.contains(k) || known.contains(n);
            &&& info.license_type@ == n
            &&& info.is_open_source == open
            &&& info.allows_redistribution == open
            &&& info.requires_attribution == (open && k != "unlicense"@ && k != "cc0-1.0"@)
            &&& info.source_url matches Some(u) && u@ == repository
        },
        _ => is_unknown_license(info, repository),
    }
}

/// The repository path of a GitHub repository URL: the URL without its
/// `https://github.com/` and `http://github.com/` prefixes and its `.git`
/// and `/` suffixes.
pub open spec fn github_repo_path(repository: Seq<char>) -> Seq<char> {
    trim_end_all(
        trim_end_all(
            trim_start_all(trim_start_all(repository, "https://github.com/"@), "http://github.com/"@),
            ".git"@,
        ),
        "/"@,
    )
}

/// License validator
#[derive(Debug)]
pub struct LicenseValidator {
    /// Licences recognised as open source
    pub known_open_source_licenses: Vec<String>,
}

impl LicenseValidator {
    /// A validator that recognises the common open-source licences.
    pub fn new() -> (v: LicenseValidator)
        ensures
            string_views(v.known_open_source_licenses@) == known_licenses(),
    {
        let licenses = vec![
            owned("MIT"), owned("Apache-2.0"), owned("GPL-3.0"), owned("GPL-2.0"),
            owned("BSD-3-Clause"), owned("BSD-2-Clause"), owned("ISC"), owned("MPL-2.0"),
            owned("LGPL-3.0"), owned("LGPL-2.1"), owned("AGPL-3.0"), owned("Unlicense"),
            owned("CC0-1.0"), owned("Zlib"), owned("BSL-1.0"), owned("WTFPL"), owned("0BSD"),
        ];
        let v = LicenseValidator { known_open_source_licenses: licenses };
        assert(string_views(v.known_open_source_licenses@) =~= known_licenses());
        v
    }

    /// Whether `name` is a licence recognised as open source.
    pub fn is_known_license(&self, name: &str) -> (r: bool)
        ensures
            r == string_views(self.known_open_source_licenses@).contains(name@),
    {
        let list = &self.known_open_source_licenses;
        let ghost views = string_views(list@);
        let mut i: usize = 0;
        while i < list.len()
            invariant
                i <= list.len(),
                views == string_views(list@),
                views == string_views(self.known_open_source_licenses@),
                forall|k: int| 0 <= k < i ==> views[k] != name@,
            decreases list.len() - i,
        {
            if str_eq(list[i].as_str(), name) {
                assert(views[i as int] == name@);
                assert(views.contains(name@));
                return true;
            }
            i = i + 1;
        }
        proof {
            if views.contains(name@) {
                let k = choose|k: int| 0 <= k < views.len() && views[k] == name@;
                assert(views[k] != name@);
            }
        }
        false
    }

    /// Whether a repository is hosted on GitHub (its URL mentions
    /// `github.com`), so that its licence is looked up there.
    pub fn is_github_repository(repository: &str) -> (r: bool)
        ensures
            r == seq_contains(repository@, "github.com"@),
    {
        str_contains(repository, "github.com")
    }

    /// The repository path of a GitHub repository URL.
    pub fn repository_path(repository: &str) -> (p: String)
        ensures
            p@ == github_repo_path(repository@),
    {
        let a = trim_start_str(repository, "https://github.com/");
        let b = trim_start_str(a.as_str(), "http://github.com/");
        let c = trim_end_str(b.as_str(), ".git");
        trim_end_str(c.as_str(), "/")
    }

    /// The GitHub API URL that describes a repository.
    pub fn github_api_url(repository: &str) -> (u: String)
        ensures
            u@ == "https://api.github.com/repos/"@ + github_repo_path(repository@),
    {
        let path = LicenseValidator::repository_path(repository);
        concat2("https://api.github.com/repos/", path.as_str())
    }

    /// The error for a GitHub API reply with an unsuccessful status; the
    /// status is given as its display text.
    pub fn github_status_error(status: &str) -> (e: TurboCdnError)
        ensures
            e matches TurboCdnError::Compliance { message } && message@ == "GitHub API returned status: "@ + status@,
    {
        TurboCdnError::Compliance { message: concat2("GitHub API returned status: ", status) }
    }

    /// The licence information of a GitHub repository, from the `license`
    /// field of its description.
    pub fn license_from_github(&self, repository: &str, license: &GithubLicense) -> (info: LicenseInfo)
        ensures
            github_license_info_ok(string_views(self.known_open_source_licenses@), *license, repository@, info),
    {
        match license {
            GithubLicense::Object { key, name } => {
                let k = match key {
                    Some(k) => owned(k.as_str()),
                    None => owned("unknown"),
                };
                let n = match name {
                    Some(n) => owned(n.as_str()),
                    None => owned("Unknown"),
                };
                let open = self.is_known_license(k.as_str()) || self.is_known_license(n.as_str());
                let attribution = open && !str_eq(k.as_str(), "unlicense") && !str_eq(k.as_str(), "cc0-1.0");
                LicenseInfo {
                    license_type: n,
                    is_open_source: open,
                    allows_redistribution: open,
                    requires_attribution: attribution,
                    source_url: Some(owned(repository)),
                }
            },
            _ => LicenseValidator::validate_generic_repository(repository),
        }
    }

    /// The licence information of a repository hosted elsewhere than GitHub:
    /// unknown, and so not open source.
    pub fn validate_generic_repository(repository: &str) -> (info: LicenseInfo)
        ensures
            is_unknown_license(info, repository@),
    {
        LicenseInfo {
            license_type: owned("Unknown"),
            is_open_source: false,
            allows_redistribution: false,
            requires_attribution: false,
            source_url: Some(owned(repository)),
        }
    }
}

// ---------------------------------------------------------------------------
// Content validation
// ---------------------------------------------------------------------------

/// The patterns that mark content as not to be downloaded.
pub open spec fn blocked_pattern_texts() -> Seq<Seq<char>> {
    seq![
        "(?i)crack"@, "(?i)keygen"@, "(?i)serial"@, "(?i)patch"@, "(?i)pirate"@, "(?i)warez"@,
        "(?i)nulled"@, "(?i)torrent"@,
    ]
}

/// The domains content may come from.
pub open spec fn allowed_domain_texts() -> Seq<Seq<char>> {
    seq![
        "github.com"@, "githubusercontent.com"@, "cdn.jsdelivr.net"@, "fastly.jsdelivr.net"@,
        "cdnjs.cloudflare.com"@, "unpkg.com"@, "registry.npmjs.org"@, "pypi.org"@, "crates.io"@,
        "maven.org"@, "repo1.maven.org"@, "central.sonatype.com"@,
    ]
}

/// The first of `patterns` that matches `text`, as the message of the error
/// it causes, or `None` when none matches.
pub open spec fn blocked_verdict(patterns: Seq<Seq<char>>, text: Seq<char>) -> Option<Seq<char>>
    decreases patterns.len(),
{
    if patterns.len() == 0 {
        None
    } else if regex_finds(patterns[0], text) {
        Some("Content matches blocked pattern: "@ + patterns[0])
    } else {
        blocked_verdict(patterns.drop_first(), text)
    }
}

/// The text the blocked patterns are matched against: the URL and the file
/// name, separated by a space.
pub open spec fn content_text(url: Seq<char>, file_name: Seq<char>) -> Seq<char> {
    url + " "@ + file_name
}

/// The verdict on where content comes from: its URL must parse, have a
/// domain, and that domain must end with one of the allowed domains.
pub open spec fn source_verdict(allowed: Seq<Seq<char>>, url: Seq<char>) -> Option<Seq<char>> {
    match url_domain_outcome(url) {
        Err(e) => Some("Invalid URL: "@ + e),
        Ok(None) => Some("URL does not have a valid domain"@),
        Ok(Some(d)) => if exists|i: int| 0 <= i < allowed.len() && seq_ends_with(d, #[trigger] allowed[i]) {
            None
        } else {
            Some("Domain '"@ + d + "' is not in the allowed list"@)
        },
    }
}

/// The Compliance error that a verdict describes.
pub open spec fn compliance_verdict(r: Result<(), TurboCdnError>, v: Option<Seq<char>>) -> bool {
    match v {
        None => r is Ok,
        Some(text) => r matches Err(TurboCdnError::Compliance { message }) && message@ == text,
    }
}

/// Dropping a pattern that does not match leaves the verdict unchanged.
proof fn lemma_blocked_verdict_skip(patterns: Seq<Seq<char>>, text: Seq<char>, i: int)
    requires
        0 <= i < patterns.len(),
        !regex_finds(patterns[i], text),
    ensures
        blocked_verdict(patterns.subrange(i, patterns.len() as int), text)
            == blocked_verdict(patterns.subrange(i + 1, patterns.len() as int), text),
{
    let s = patterns.subrange(i, patterns.len() as int);
    assert(s[0] == patterns[i]);
    assert(s.drop_first() =~= patterns.subrange(i + 1, patterns.len() as int));
}

/// Content validator: blocked patterns and allowed source domains.
#[derive(Debug)]
pub struct ContentValidator {
    blocked_patterns: Vec<CompiledPattern>,
    allowed_domains: Vec<String>,
}

impl ContentValidator {
    /// The texts of the blocked patterns, in the order they are tried.
    pub closed spec fn patterns(&self) -> Seq<Seq<char>> {
        self.blocked_patterns@.map_values(|p: CompiledPattern| p.source_view())
    }

    /// The allowed domains.
    pub closed spec fn allowed(&self) -> Seq<Seq<char>> {
        string_views(self.allowed_domains@)
    }

    /// A validator with the standard blocked patterns and allowed domains.
    /// It fails where the regex crate refuses one of the patterns.
    pub fn new() -> (r: Result<ContentValidator, TurboCdnError>)
        ensures
            r matches Ok(v) ==> v.patterns() == blocked_pattern_texts() && v.allowed() == allowed_domain_texts(),
            r is Ok <==> forall|i: int| 0 <= i < 8 ==> regex_compiles(#[trigger] blocked_pattern_texts()[i]),
            r matches Err(e) ==> e is Compliance,
    {
        let texts = vec![
            "(?i)crack", "(?i)keygen", "(?i)serial", "(?i)patch", "(?i)pirate", "(?i)warez",
            "(?i)nulled", "(?i)torrent",
        ];
        assert(texts@.map_values(|t: &str| t@) =~= blocked_pattern_texts());
        let mut blocked_patterns: Vec<CompiledPattern> = Vec::new();
        let mut i: usize = 0;
        while i < texts.len()
            invariant
                i <= texts.len(),
                texts@.len() == 8,
                texts@.map_values(|t: &str| t@) == blocked_pattern_texts(),
                blocked_patterns@.len() == i,
                forall|k: int| 0 <= k < i ==> (#[trigger] blocked_patterns@[k]).source_view() == blocked_pattern_texts()[k],
                forall|k: int| 0 <= k < i ==> regex_compiles(#[trigger] blocked_pattern_texts()[k]),
            decreases texts.len() - i,
        {
            assert(texts@[i as int]@ == blocked_pattern_texts()[i as int]);
            match CompiledPattern::compile(texts[i]) {
                Ok(p) => {
                    blocked_patterns.push(p);
                },
                Err(e) => {
                    let detail = regex_error_text(&e);
                    return Err(TurboCdnError::Compliance { message: concat2("Invalid regex pattern: ", detail.as_str()) });
                },
            }
            i = i + 1;
        }
        let allowed_domains = vec![
            owned("github.com"), owned("githubusercontent.com"), owned("cdn.jsdelivr.net"),
            owned("fastly.jsdelivr.net"), owned("cdnjs.cloudflare.com"), owned("unpkg.com"),
            owned("registry.npmjs.org"), owned("pypi.org"), owned("crates.io"), owned("maven.org"),
            owned("repo1.maven.org"), owned("central.sonatype.com"),
        ];
        let v = ContentValidator { blocked_patterns, allowed_domains };
        assert(v.patterns() =~= blocked_pattern_texts());
        assert(v.allowed() =~= allowed_domain_texts());
        Ok(v)
    }

    /// Checks the URL and file name against the blocked patterns: the first
    /// pattern that matches is reported.
    pub fn check_blocked_patterns(&self, url: &str, file_name: &str) -> (r: Result<(), TurboCdnError>)
        ensures
            compliance_verdict(r, blocked_verdict(self.patterns(), content_text(url@, file_name@))),
    {
        let combined = concat3(url, " ", file_name);
        let ghost text = content_text(url@, file_name@);
        let ghost ps = self.patterns();
        let n = self.blocked_patterns.len();
        assert(ps.subrange(0, n as int) =~= ps);
        let mut i: usize = 0;
        while i < n
            invariant
                n == self.blocked_patterns@.len(),
                ps == self.patterns(),
                ps.len() == n,
                combined@ == text,
                text == content_text(url@, file_name@),
                i <= n,
                blocked_verdict(ps.subrange(i as int, n as int), text) == blocked_verdict(ps, text),
            decreases n - i,
        {
            let pattern = &self.blocked_patterns[i];
            assert(ps[i as int] == pattern.source_view());
            if pattern.is_match(combined.as_str()) {
                let ghost rest = ps.subrange(i as int, n as int);
                assert(rest[0] == ps[i as int]);
                assert(regex_finds(rest[0], text));
                assert(blocked_verdict(rest, text) == Some("Content matches blocked pattern: "@ + rest[0]));
                return Err(TurboCdnError::Compliance {
                    message: concat2("Content matches blocked pattern: ", pattern.as_str()),
                });
            }
            proof { lemma_blocked_verdict_skip(ps, text, i as int); }
            i = i + 1;
        }
        assert(ps.subrange(n as int, n as int).len() == 0);
        Ok(())
    }

    /// Checks that a URL comes from one of the allowed domains.
    pub fn validate_source(&self, url: &str) -> (r: Result<(), TurboCdnError>)
        ensures
            compliance_verdict(r, source_verdict(self.allowed(), url@)),
    {
        match parse_url_domain(url) {
            Err(e) => Err(TurboCdnError::Compliance { message: concat2("Invalid URL: ", e.as_str()) }),
            Ok(None) => Err(TurboCdnError::compliance("URL does not have a valid domain")),
            Ok(Some(domain)) => {
                let dv = chars_of(domain.as_str());
                let list = &self.allowed_domains;
                let ghost views = self.allowed();
                let mut i: usize = 0;
                while i < list.len()
                    invariant
                        i <= list.len(),
                        views == string_views(list@),
                        views == self.allowed(),
                        views.len() == list@.len(),
                        url_domain_outcome(url@) == Ok::<Option<Seq<char>>, Seq<char>>(Some(domain@)),
                        dv@ == domain@,
                        forall|k: int| 0 <= k < i ==> !seq_ends_with(domain@, #[trigger] views[k]),
                    decreases list.len() - i,
                {
                    let av = chars_of(list[i].as_str());
                    if chars_ends_with(&dv, &av) {
                        assert(seq_ends_with(domain@, views[i as int]));
                        assert(exists|k: int| 0 <= k < views.len() && seq_ends_with(domain@, #[trigger] views[k]));
                        return Ok(());
                    }
                    i = i + 1;
                }
                Err(TurboCdnError::Compliance {
                    message: concat3("Domain '", domain.as_str(), "' is not in the allowed list"),
                })
            },
        }
    }
}

// ---------------------------------------------------------------------------
// The checker
// ---------------------------------------------------------------------------

/// The reasons and risk level of the local rules, in the order they are
/// applied: consent, trusted domains, blocked content.
pub open spec fn local_reasons(consent_missing: bool, domain: Option<Seq<char>>, content: Option<Seq<char>>) -> Seq<Seq<char>> {
    let r0: Seq<Seq<char>> = if consent_missing { seq!["User consent required but not provided"@] } else { seq![] };
    let r1 = match domain {
        Some(m) => r0.push("Domain validation failed: "@ + ("Compliance check failed: "@ + m)),
        None => r0,
    };
    match content {
        Some(m) => r1.push("Content validation failed: "@ + ("Compliance check failed: "@ + m)),
        None => r1,
    }
}

/// The risk level of the local rules.
pub open spec fn local_risk(consent_missing: bool, domain: Option<Seq<char>>, content: Option<Seq<char>>) -> RiskLevel {
    let k0 = if consent_missing { RiskLevel::Critical } else { RiskLevel::Low };
    let k1 = if domain is Some { spec_max_risk(k0, RiskLevel::High) } else { k0 };
    if content is Some { RiskLevel::Critical } else { k1 }
}

/// Compliance checker
#[derive(Debug)]
pub struct ComplianceChecker {
    config: ComplianceConfig,
    license_validator: LicenseValidator,
    content_validator: ContentValidator,
    domain_manager: DomainManager,
}

impl ComplianceChecker {
    /// The configuration the checker applies.
    pub closed spec fn config_view(&self) -> ComplianceConfig {
        self.config
    }

    /// The content validator's blocked patterns.
    pub closed spec fn blocked_patterns(&self) -> Seq<Seq<char>> {
        self.content_validator.patterns()
    }

    /// The licences the checker recognises as open source.
    pub closed spec fn licenses(&self) -> Seq<Seq<char>> {
        string_views(self.license_validator.known_open_source_licenses@)
    }

    /// The domain manager's entries.
    pub closed spec fn domain_entries(&self) -> Seq<DomainEntryView> {
        self.domain_manager.entries()
    }

    /// The domain manager's validation configuration.
    pub closed spec fn domain_config(&self) -> crate::domain_manager::ValidationConfigView {
        self.domain_manager.config_view()
    }

    /// Create new compliance checker, with the built-in trusted domains.
    pub fn new(config: ComplianceConfig) -> (r: Result<ComplianceChecker, TurboCdnError>)
        ensures
            r is Ok <==> forall|i: int| 0 <= i < 8 ==> regex_compiles(#[trigger] blocked_pattern_texts()[i]),
            r matches Ok(c) ==> c.config_view() == config && c.blocked_patterns() == blocked_pattern_texts()
                && c.licenses() == known_licenses()
                && c.domain_entries() == crate::domain_manager::builtin_domains(),
    {
        let content_validator = ContentValidator::new()?;
        Ok(ComplianceChecker {
            config,
            license_validator: LicenseValidator::new(),
            content_validator,
            domain_manager: DomainManager::new(),
        })
    }

    /// Create compliance checker with a custom domain manager.
    pub fn with_domain_manager(config: ComplianceConfig, domain_manager: DomainManager) -> (r: Result<ComplianceChecker, TurboCdnError>)
        ensures
            r is Ok <==> forall|i: int| 0 <= i < 8 ==> regex_compiles(#[trigger] blocked_pattern_texts()[i]),
            r matches Ok(c) ==> c.config_view() == config && c.blocked_patterns() == blocked_pattern_texts()
                && c.licenses() == known_licenses()
                && c.domain_entries() == domain_manager.entries()
                && c.domain_config() == domain_manager.config_view(),
    {
        let content_validator = ContentValidator::new()?;
        Ok(ComplianceChecker {
            config,
            license_validator: LicenseValidator::new(),
            content_validator,
            domain_manager,
        })
    }

    /// Get reference to domain manager
    pub fn domain_manager(&self) -> (d: &DomainManager)
        ensures
            d.entries() == self.domain_entries(),
            d.config_view() == self.domain_config(),
    {
        &self.domain_manager
    }

    /// Get reference to the licence validator
    pub fn license_validator(&self) -> (v: &LicenseValidator)
        ensures
            string_views(v.known_open_source_licenses@) == self.licenses(),
    {
        &self.license_validator
    }

    /// Whether consent is required and the request does not give it.
    pub open spec fn consent_missing(&self, request: DownloadRequest) -> bool {
        self.config_view().data_protection.user_consent_required && !request.user_consent
    }

    /// The verdict of the trusted-domain rules on a request, where source
    /// validation is on.
    pub open spec fn domain_check(&self, request: DownloadRequest) -> Option<Seq<char>> {
        if self.config_view().validate_source {
            url_verdict(self.domain_config(), self.domain_entries(), request.url@)
        } else {
            None
        }
    }

    /// The verdict of the blocked content patterns on a request.
    pub open spec fn content_check(&self, request: DownloadRequest) -> Option<Seq<char>> {
        blocked_verdict(self.blocked_patterns(), content_text(request.url@, request.file_name@))
    }

    /// Applies the local rules (consent, trusted domains, blocked content)
    /// to a request, at time `now`: each rule it breaks adds a reason and
    /// raises the risk level, and any reason rejects the request.
    pub fn check_local(&self, request: &DownloadRequest, now: i64) -> (r: ComplianceResult)
        ensures
            r.request_id == request.id,
            r.timestamp == now,
            r.license_info is None,
            string_views(r.reasons@) == local_reasons(
                self.consent_missing(*request),
                self.domain_check(*request),
                self.content_check(*request),
            ),
            r.risk_level == local_risk(
                self.consent_missing(*request),
                self.domain_check(*request),
                self.content_check(*request),
            ),
            r.approved == (r.reasons@.len() == 0),
            r.approved == (r.risk_level == RiskLevel::Low),
    {
        let ghost cm = self.consent_missing(*request);
        let ghost dc = self.domain_check(*request);
        let ghost cc = self.content_check(*request);
        let mut approved = true;
        let mut reasons: Vec<String> = Vec::new();
        let mut risk = RiskLevel::Low;
        if self.config.data_protection.user_consent_required && !request.user_consent {
            approved = false;
            reasons.push(owned("User consent required but not provided"));
            risk = RiskLevel::Critical;
        }
        let ghost r0: Seq<Seq<char>> = if cm { seq!["User consent required but not provided"@] } else { seq![] };
        assert(string_views(reasons@) =~= r0);
        if self.config.validate_source {
            match self.domain_manager.validate_url(request.url.as_str()) {
                Err(e) => {
                    approved = false;
                    let text = e.to_message();
                    reasons.push(concat2("Domain validation failed: ", text.as_str()));
                    risk = RiskLevel::max_of(risk, RiskLevel::High);
                },
                Ok(()) => {},
            }
        }
        let ghost r1 = match dc {
            Some(m) => r0.push("Domain validation failed: "@ + ("Compliance check failed: "@ + m)),
            None => r0,
        };
        assert(string_views(reasons@) =~= r1);
        match self.content_validator.check_blocked_patterns(request.url.as_str(), request.file_name.as_str()) {
            Err(e) => {
                approved = false;
                let text = e.to_message();
                reasons.push(concat2("Content validation failed: ", text.as_str()));
                risk = RiskLevel::Critical;
            },
            Ok(()) => {},
        }
        assert(string_views(reasons@) =~= local_reasons(cm, dc, cc));
        ComplianceResult {
            request_id: request.id,
            approved,
            reasons,
            license_info: None,
            risk_level: risk,
            timestamp: now,
        }
    }

    /// Whether the request's licence must be looked up: open-source
    /// verification is on and the request names a repository.
    pub fn needs_license_check(&self, request: &DownloadRequest) -> (r: bool)
        ensures
            r == (self.config_view().verify_open_source && request.repository is Some),
    {
        self.config.verify_open_source && request.repository.is_some()
    }

    /// Applies the outcome of a licence lookup to a result: a licence that
    /// is not open source rejects the request as critical; a failed lookup
    /// rejects it (at least as a medium risk) only in strict mode.
    pub fn apply_license_outcome(&self, result: ComplianceResult, outcome: Result<LicenseInfo, TurboCdnError>) -> (r: ComplianceResult)
        ensures
            r.request_id == result.request_id,
            r.timestamp == result.timestamp,
            result.approved == (result.reasons@.len() == 0) && result.approved == (result.risk_level == RiskLevel::Low)
                ==> r.approved == (r.reasons@.len() == 0) && r.approved == (r.risk_level == RiskLevel::Low),
            match outcome {
                Ok(info) => {
                    &&& r.license_info == Some(info)
                    &&& if info.is_open_source {
                        &&& r.approved == result.approved
                        &&& r.reasons@ == result.reasons@
                        &&& r.risk_level == result.risk_level
                    } else {
                        &&& !r.approved
                        &&& string_views(r.reasons@) == string_views(result.reasons@).push(
                            "Repository does not have an open source license"@)
                        &&& r.risk_level == RiskLevel::Critical
                    }
                },
                Err(e) => {
                    &&& r.license_info == result.license_info
                    &&& if self.config_view().strict_mode {
                        &&& !r.approved
                        &&& string_views(r.reasons@) == string_views(result.reasons@).push(
                            "License validation failed: "@ + error_text(e))
                        &&& r.risk_level == spec_max_risk(result.risk_level, RiskLevel::Medium)
                    } else {
                        &&& r.approved == result.approved
                        &&& r.reasons@ == result.reasons@
                        &&& r.risk_level == result.risk_level
                    }
                },
            },
    {
        let mut r = result;
        match outcome {
            Ok(info) => {
                if !info.is_open_source {
                    r.approved = false;
                    r.reasons.push(owned("Repository does not have an open source license"));
                    r.risk_level = RiskLevel::Critical;
                    assert(string_views(r.reasons@) =~= string_views(result.reasons@).push(
                        "Repository does not have an open source license"@));
                }
                r.license_info = Some(info);
            },
            Err(e) => {
                if self.config.strict_mode {
                    r.approved = false;
                    let text = e.to_message();
                    r.reasons.push(concat2("License validation failed: ", text.as_str()));
                    r.risk_level = RiskLevel::max_of(r.risk_level, RiskLevel::Medium);
                    assert(string_views(r.reasons@) =~= string_views(result.reasons@).push(
                        "License validation failed: "@ + error_text(e)));
                }
            },
        }
        r
    }

    /// A result that approves a request at time `now`, as audit entries for
    /// download events carry.
    pub fn approved_result(request: &DownloadRequest, now: i64) -> (r: ComplianceResult)
        ensures
            r.request_id == request.id,
            r.approved,
            r.reasons@.len() == 0,
            r.license_info is None,
            r.risk_level == RiskLevel::Low,
            r.timestamp == now,
    {
        ComplianceResult {
            request_id: request.id,
            approved: true,
            reasons: Vec::new(),
            license_info: None,
            risk_level: RiskLevel::Low,
            timestamp: now,
        }
    }
}

} // verus!
