//! Extensible domain management: a registry of trusted domains with
//! categories, tags and trust levels, and the rules that decide whether a
//! domain (or a URL's domain) may be downloaded from.
use vstd::prelude::*;
use crate::error::TurboCdnError;
use crate::url_parts::{parse_url_domain, url_domain_outcome};
use crate::text::{chars_of, concat3, dec_str, owned, push_char, push_decimal, seq_ends_with, str_eq, chars_ends_with, string_views, debug_escape, push_debug_str};

verus! {

// ---------------------------------------------------------------------------
// Categories
// ---------------------------------------------------------------------------

/// Domain category for organizing trusted domains
#[derive(Debug, Clone, PartialEq, Eq, Hash)]
pub enum DomainCategory {
    /// Official package repositories
    PackageRegistry,
    /// Content delivery networks
    CDN,
    /// Version control systems
    VersionControl,
    /// Official language/framework sites
    Official,
    /// Archive and mirror sites
    Archive,
    /// Custom user-defined category
    Custom(String),
}

/// The mathematical value of a category.
pub ghost enum CategoryView {
    PackageRegistry,
    CDN,
    VersionControl,
    Official,
    Archive,
    Custom(Seq<char>),
}

impl View for DomainCategory {
    type V = CategoryView;

    open spec fn view(&self) -> CategoryView {
        match self {
            DomainCategory::PackageRegistry => CategoryView::PackageRegistry,
            DomainCategory::CDN => CategoryView::CDN,
            DomainCategory::VersionControl => CategoryView::VersionControl,
            DomainCategory::Official => CategoryView::Official,
            DomainCategory::Archive => CategoryView::Archive,
            DomainCategory::Custom(s) => CategoryView::Custom(s@),
        }
    }
}

/// The debug text of a category (`format!("{:?}", category)`).
pub open spec fn category_debug_text(c: CategoryView) -> Seq<char> {
    match c {
        CategoryView::PackageRegistry => "PackageRegistry"@,
        CategoryView::CDN => "CDN"@,
        CategoryView::VersionControl => "VersionControl"@,
        CategoryView::Official => "Official"@,
        CategoryView::Archive => "Archive"@,
        CategoryView::Custom(s) => "Custom(\""@ + debug_escape(s) + "\")"@,
    }
}

impl DomainCategory {
    /// Whether two categories are the same (same kind, and the same name for
    /// custom categories).
    pub fn same_as(&self, other: &DomainCategory) -> (r: bool)
        ensures
            r == (self@ == other@),
    {
        match (self, other) {
            (DomainCategory::PackageRegistry, DomainCategory::PackageRegistry) => true,
            (DomainCategory::CDN, DomainCategory::CDN) => true,
            (DomainCategory::VersionControl, DomainCategory::VersionControl) => true,
            (DomainCategory::Official, DomainCategory::Official) => true,
            (DomainCategory::Archive, DomainCategory::Archive) => true,
            (DomainCategory::Custom(a), DomainCategory::Custom(b)) => str_eq(a.as_str(), b.as_str()),
            _ => false,
        }
    }

    /// A copy of the category.
    pub fn duplicate(&self) -> (r: DomainCategory)
        ensures
            r@ == self@,
    {
        match self {
            DomainCategory::PackageRegistry => DomainCategory::PackageRegistry,
            DomainCategory::CDN => DomainCategory::CDN,
            DomainCategory::VersionControl => DomainCategory::VersionControl,
            DomainCategory::Official => DomainCategory::Official,
            DomainCategory::Archive => DomainCategory::Archive,
            DomainCategory::Custom(s) => DomainCategory::Custom(owned(s.as_str())),
        }
    }

    /// The debug text of the category, as `{:?}` formats it.
    pub fn debug_text(&self) -> (r: String)
        ensures
            r@ == category_debug_text(self@),
    {
        match self {
            DomainCategory::PackageRegistry => owned("PackageRegistry"),
            DomainCategory::CDN => owned("CDN"),
            DomainCategory::VersionControl => owned("VersionControl"),
            DomainCategory::Official => owned("Official"),
            DomainCategory::Archive => owned("Archive"),
            DomainCategory::Custom(name) => {
                let mut r = owned("Custom(\"");
                push_debug_str(&mut r, name.as_str());
                r.append("\")");
                r
            },
        }
    }
}

// ---------------------------------------------------------------------------
// Entries
// ---------------------------------------------------------------------------

/// Domain entry with metadata
#[derive(Debug, Clone)]
pub struct DomainEntry {
    /// Domain name (e.g., "github.com")
    pub domain: String,
    /// Category classification
    pub category: DomainCategory,
    /// Optional description
    pub description: Option<String>,
    /// Tags for flexible filtering
    pub tags: Vec<String>,
    /// Whether this domain is enabled
    pub enabled: bool,
    /// Trust level (0-100, higher = more trusted)
    pub trust_level: u8,
}

/// The mathematical value of a domain entry.
pub ghost struct DomainEntryView {
    pub domain: Seq<char>,
    pub category: CategoryView,
    pub description: Option<Seq<char>>,
    pub tags: Seq<Seq<char>>,
    pub enabled: bool,
    pub trust_level: u8,
}

impl View for DomainEntry {
    type V = DomainEntryView;

    open spec fn view(&self) -> DomainEntryView {
        DomainEntryView {
            domain: self.domain@,
            category: self.category@,
            description: match self.description {
                Some(d) => Some(d@),
                None => None,
            },
            tags: string_views(self.tags@),
            enabled: self.enabled,
            trust_level: self.trust_level,
        }
    }
}

/// A copy of a list of strings.
pub fn copy_strings(v: &Vec<String>) -> (r: Vec<String>)
    ensures
        string_views(r@) == string_views(v@),
{
    let mut r: Vec<String> = Vec::new();
    let mut i: usize = 0;
    while i < v.len()
        invariant
            i <= v.len(),
            string_views(r@) == string_views(v@.subrange(0, i as int)),
        decreases v.len() - i,
    {
        r.push(owned(v[i].as_str()));
        assert(string_views(v@.subrange(0, i + 1)) =~= string_views(v@.subrange(0, i as int)).push(v@[i as int]@));
        assert(string_views(r@) =~= string_views(v@.subrange(0, i + 1)));
        i = i + 1;
    }
    assert(v@.subrange(0, v.len() as int) =~= v@);
    r
}

impl DomainEntry {
    /// Create a new domain entry: enabled, without description or tags, with
    /// trust level 80
    pub fn new(domain: &str, category: DomainCategory) -> (e: Self)
        ensures
            e@ == (DomainEntryView {
                domain: domain@,
                category: category@,
                description: None,
                tags: Seq::empty(),
                enabled: true,
                trust_level: 80,
            }),
    {
        let e = DomainEntry {
            domain: owned(domain),
            category,
            description: None,
            tags: Vec::new(),
            enabled: true,
            trust_level: 80,
        };
        assert(string_views(e.tags@) =~= Seq::empty());
        e
    }

    /// Set description
    pub fn with_description(self, description: &str) -> (e: Self)
        ensures
            e@ == (DomainEntryView { description: Some(description@), ..self@ }),
    {
        DomainEntry { description: Some(owned(description)), ..self }
    }

    /// Add tags: the new tags follow the ones the entry already has.
    pub fn with_tags(self, tags: Vec<String>) -> (e: Self)
        ensures
            e@ == (DomainEntryView { tags: self@.tags + string_views(tags@), ..self@ }),
    {
        let mut all = self.tags;
        let mut added = tags;
        all.append(&mut added);
        proof {
            assert(string_views(all@) =~= string_views(self.tags@) + string_views(tags@));
        }
        DomainEntry { tags: all, ..self }
    }

    /// Set trust level, capped at 100
    pub fn with_trust_level(self, trust_level: u8) -> (e: Self)
        ensures
            e@ == (DomainEntryView { trust_level: if trust_level <= 100 { trust_level } else { 100 }, ..self@ }),
    {
        let t: u8 = if trust_level <= 100 { trust_level } else { 100 };
        DomainEntry { trust_level: t, ..self }
    }

    /// Enable or disable domain
    pub fn with_enabled(self, enabled: bool) -> (e: Self)
        ensures
            e@ == (DomainEntryView { enabled, ..self@ }),
    {
        DomainEntry { enabled, ..self }
    }

    /// A copy of the entry.
    pub fn duplicate(&self) -> (e: Self)
        ensures
            e@ == self@,
    {
        DomainEntry {
            domain: owned(self.domain.as_str()),
            category: self.category.duplicate(),
            description: match &self.description {
                Some(d) => Some(owned(d.as_str())),
                None => None,
            },
            tags: copy_strings(&self.tags),
            enabled: self.enabled,
            trust_level: self.trust_level,
        }
    }
}

// ---------------------------------------------------------------------------
// Validation configuration
// ---------------------------------------------------------------------------

/// Domain validation configuration
#[derive(Debug, Clone)]
pub struct DomainValidationConfig {
    /// Enable domain validation
    pub enabled: bool,
    /// Strict mode - only allow explicitly listed domains
    pub strict_mode: bool,
    /// Allow subdomains of trusted domains
    pub allow_subdomains: bool,
    /// Minimum trust level required (0-100)
    pub min_trust_level: u8,
    /// Categories to allow (empty = allow all)
    pub allowed_categories: Vec<DomainCategory>,
    /// Tags to allow (empty = allow all)
    pub allowed_tags: Vec<String>,
}

/// The mathematical value of a validation configuration.
pub ghost struct ValidationConfigView {
    pub enabled: bool,
    pub strict_mode: bool,
    pub allow_subdomains: bool,
    pub min_trust_level: u8,
    pub allowed_categories: Seq<CategoryView>,
    pub allowed_tags: Seq<Seq<char>>,
}

impl View for DomainValidationConfig {
    type V = ValidationConfigView;

    open spec fn view(&self) -> ValidationConfigView {
        ValidationConfigView {
            enabled: self.enabled,
            strict_mode: self.strict_mode,
            allow_subdomains: self.allow_subdomains,
            min_trust_level: self.min_trust_level,
            allowed_categories: self.allowed_categories@.map_values(|c: DomainCategory| c@),
            allowed_tags: string_views(self.allowed_tags@),
        }
    }
}

/// A validation configuration with the given switches and no category or
/// tag restriction.
pub open spec fn unrestricted_config(enabled: bool, strict_mode: bool, allow_subdomains: bool, min_trust_level: u8) -> ValidationConfigView {
    ValidationConfigView {
        enabled,
        strict_mode,
        allow_subdomains,
        min_trust_level,
        allowed_categories: Seq::empty(),
        allowed_tags: Seq::empty(),
    }
}

impl DomainValidationConfig {
    fn unrestricted(enabled: bool, strict_mode: bool, allow_subdomains: bool, min_trust_level: u8) -> (c: Self)
        ensures
            c@ == unrestricted_config(enabled, strict_mode, allow_subdomains, min_trust_level),
    {
        let c = DomainValidationConfig {
            enabled,
            strict_mode,
            allow_subdomains,
            min_trust_level,
            allowed_categories: Vec::new(),
            allowed_tags: Vec::new(),
        };
        assert(c@.allowed_categories =~= Seq::empty());
        assert(c@.allowed_tags =~= Seq::empty());
        c
    }

    /// Create a new validation config with defaults: enabled, strict,
    /// subdomains allowed, minimum trust 50, every category and tag allowed
    pub fn new() -> (c: Self)
        ensures
            c@ == unrestricted_config(true, true, true, 50),
    {
        Self::unrestricted(true, true, true, 50)
    }

    /// Disable domain validation entirely
    pub fn disabled() -> (c: Self)
        ensures
            c@ == unrestricted_config(false, false, true, 0),
    {
        Self::unrestricted(false, false, true, 0)
    }

    /// Permissive mode - allow most domains
    pub fn permissive() -> (c: Self)
        ensures
            c@ == unrestricted_config(true, false, true, 30),
    {
        Self::unrestricted(true, false, true, 30)
    }

    /// Strict mode - only explicitly allowed domains
    pub fn strict() -> (c: Self)
        ensures
            c@ == unrestricted_config(true, true, false, 70),
    {
        Self::unrestricted(true, true, false, 70)
    }
}

impl Default for DomainValidationConfig {
    fn default() -> (c: Self)
        ensures
            c@ == unrestricted_config(true, true, true, 50),
    {
        Self::new()
    }
}

// ---------------------------------------------------------------------------
// The manager
// ---------------------------------------------------------------------------

/// No two entries share a domain name.
pub open spec fn distinct_names(s: Seq<DomainEntryView>) -> bool {
    forall|i: int, j: int| 0 <= i < j < s.len() ==> s[i].domain != s[j].domain
}

/// Some entry has the domain name `name`.
pub open spec fn has_domain(s: Seq<DomainEntryView>, name: Seq<char>) -> bool {
    exists|i: int| 0 <= i < s.len() && s[i].domain == name
}

/// The position of the entry named `name` (meaningful when there is one).
pub open spec fn index_of(s: Seq<DomainEntryView>, name: Seq<char>) -> int {
    choose|i: int| 0 <= i < s.len() && s[i].domain == name
}

/// The entry named `name`, if any.
pub open spec fn lookup(s: Seq<DomainEntryView>, name: Seq<char>) -> Option<DomainEntryView> {
    if has_domain(s, name) { Some(s[index_of(s, name)]) } else { None }
}

/// The entries after adding `e`: it replaces the entry of the same name, or
/// is appended when there is none.
pub open spec fn inserted(s: Seq<DomainEntryView>, e: DomainEntryView) -> Seq<DomainEntryView> {
    if has_domain(s, e.domain) { s.update(index_of(s, e.domain), e) } else { s.push(e) }
}

/// The entries after removing the one named `name`.
pub open spec fn removed(s: Seq<DomainEntryView>, name: Seq<char>) -> Seq<DomainEntryView> {
    if has_domain(s, name) { s.remove(index_of(s, name)) } else { s }
}

/// The entries, in order, that satisfy `pred`.
pub open spec fn filter_entries(s: Seq<DomainEntryView>, pred: spec_fn(DomainEntryView) -> bool) -> Seq<DomainEntryView>
    decreases s.len(),
{
    if s.len() == 0 {
        Seq::empty()
    } else {
        let rest = filter_entries(s.drop_last(), pred);
        if pred(s[s.len() - 1]) { rest.push(s[s.len() - 1]) } else { rest }
    }
}

/// Adding the entries one after another from the front, stopping at the
/// first one with an empty domain name: the entries that result, and
/// whether all of them were added.
pub open spec fn add_all(s: Seq<DomainEntryView>, es: Seq<DomainEntryView>) -> (Seq<DomainEntryView>, bool)
    decreases es.len(),
{
    if es.len() == 0 {
        (s, true)
    } else if es[0].domain.len() == 0 {
        (s, false)
    } else {
        add_all(inserted(s, es[0]), es.drop_first())
    }
}

/// The views of a list of entry references.
pub open spec fn ref_views(r: Seq<&DomainEntry>) -> Seq<DomainEntryView> {
    r.map_values(|e: &DomainEntry| e@)
}

/// A list of one to three tags.
pub open spec fn tag_seq(a: Seq<char>, b: Option<Seq<char>>, c: Option<Seq<char>>) -> Seq<Seq<char>> {
    seq![a] + (match b { Some(x) => seq![x], None => Seq::empty() }) + (match c {
        Some(x) => seq![x],
        None => Seq::empty(),
    })
}

/// The view of an optional string.
pub open spec fn opt_view(o: Option<&str>) -> Option<Seq<char>> {
    match o {
        Some(x) => Some(x@),
        None => None,
    }
}

/// A built-in entry: enabled, with a description, tags and trust level.
pub open spec fn builtin_entry(domain: Seq<char>, category: CategoryView, description: Seq<char>, tags: Seq<Seq<char>>, trust_level: u8) -> DomainEntryView {
    DomainEntryView { domain, category, description: Some(description), tags, enabled: true, trust_level }
}

/// The built-in trusted domains, in the order they are registered.
pub open spec fn builtin_domains() -> Seq<DomainEntryView> {
    seq![
        builtin_entry("github.com"@, CategoryView::VersionControl, "GitHub - Git repository hosting"@, tag_seq("git"@, Some("opensource"@), None), 95),
        builtin_entry("githubusercontent.com"@, CategoryView::VersionControl, "GitHub raw content"@, tag_seq("git"@, Some("raw"@), None), 95),
        builtin_entry("gitlab.com"@, CategoryView::VersionControl, "GitLab - Git repository hosting"@, tag_seq("git"@, Some("opensource"@), None), 90),
        builtin_entry("bitbucket.org"@, CategoryView::VersionControl, "Bitbucket - Git repository hosting"@, tag_seq("git"@, None, None), 85),
        builtin_entry("cdn.jsdelivr.net"@, CategoryView::CDN, "jsDelivr CDN"@, tag_seq("cdn"@, Some("fast"@), None), 90),
        builtin_entry("fastly.jsdelivr.net"@, CategoryView::CDN, "jsDelivr CDN via Fastly"@, tag_seq("cdn"@, Some("fast"@), None), 90),
        builtin_entry("cdnjs.cloudflare.com"@, CategoryView::CDN, "Cloudflare CDN"@, tag_seq("cdn"@, Some("cloudflare"@), None), 90),
        builtin_entry("unpkg.com"@, CategoryView::CDN, "unpkg CDN for npm packages"@, tag_seq("cdn"@, Some("npm"@), None), 85),
        builtin_entry("registry.npmjs.org"@, CategoryView::PackageRegistry, "npm package registry"@, tag_seq("npm"@, Some("javascript"@), None), 95),
        builtin_entry("pypi.org"@, CategoryView::PackageRegistry, "Python Package Index"@, tag_seq("python"@, Some("pip"@), None), 95),
        builtin_entry("files.pythonhosted.org"@, CategoryView::PackageRegistry, "PyPI file hosting"@, tag_seq("python"@, Some("pip"@), None), 95),
        builtin_entry("crates.io"@, CategoryView::PackageRegistry, "Rust package registry"@, tag_seq("rust"@, Some("cargo"@), None), 95),
        builtin_entry("repo1.maven.org"@, CategoryView::PackageRegistry, "Maven Central Repository"@, tag_seq("java"@, Some("maven"@), None), 95),
        builtin_entry("central.sonatype.com"@, CategoryView::PackageRegistry, "Sonatype Maven Central"@, tag_seq("java"@, Some("maven"@), None), 90),
        builtin_entry("nodejs.org"@, CategoryView::Official, "Node.js official website"@, tag_seq("nodejs"@, Some("javascript"@), Some("official"@)), 100),
        builtin_entry("golang.org"@, CategoryView::Official, "Go programming language official site"@, tag_seq("go"@, Some("golang"@), Some("official"@)), 100),
        builtin_entry("go.dev"@, CategoryView::Official, "Go development hub"@, tag_seq("go"@, Some("golang"@), Some("official"@)), 100),
        builtin_entry("forge.rust-lang.org"@, CategoryView::Official, "Rust language forge"@, tag_seq("rust"@, Some("official"@), None), 100),
        builtin_entry("static.rust-lang.org"@, CategoryView::Official, "Rust static resources"@, tag_seq("rust"@, Some("official"@), None), 100),
        builtin_entry("download.qt.io"@, CategoryView::Official, "Qt framework downloads"@, tag_seq("qt"@, Some("cpp"@), Some("official"@)), 95),
        builtin_entry("archive.apache.org"@, CategoryView::Archive, "Apache Software Foundation archive"@, tag_seq("apache"@, Some("archive"@), None), 95),
        builtin_entry("releases.hashicorp.com"@, CategoryView::Archive, "HashiCorp releases"@, tag_seq("hashicorp"@, Some("terraform"@), None), 90),
    ]
}

/// A tag list of the given strings.
fn tags_of(a: &str, b: Option<&str>, c: Option<&str>) -> (r: Vec<String>)
    ensures
        string_views(r@) == tag_seq(a@, opt_view(b), opt_view(c)),
{
    let mut r: Vec<String> = Vec::new();
    r.push(owned(a));
    assert(string_views(r@) =~= seq![a@]);
    let ghost s1 = string_views(r@);
    match b {
        Some(x) => {
            let t = owned(x);
            r.push(t);
            assert(string_views(r@) =~= s1.push(x@));
        },
        None => {},
    }
    let ghost s2 = string_views(r@);
    match c {
        Some(x) => {
            let t = owned(x);
            r.push(t);
            assert(string_views(r@) =~= s2.push(x@));
        },
        None => {},
    }
    assert(string_views(r@) =~= tag_seq(a@, opt_view(b), opt_view(c)));
    r
}

/// One built-in entry.
fn builtin(domain: &str, category: DomainCategory, description: &str, tags: Vec<String>, trust_level: u8) -> (e: DomainEntry)
    requires
        trust_level <= 100,
    ensures
        e@ == builtin_entry(domain@, category@, description@, string_views(tags@), trust_level),
{
    DomainEntry::new(domain, category)
        .with_description(description)
        .with_tags(tags)
        .with_trust_level(trust_level)
}

/// Domain manager for extensible domain validation
#[derive(Debug)]
pub struct DomainManager {
    /// Domain entries, no two with the same name
    domains: Vec<DomainEntry>,
    /// Validation configuration
    config: DomainValidationConfig,
}

/// The verdict of the entry rules: `None` when the entry may be used,
/// otherwise the text of the compliance error.
pub open spec fn entry_verdict(config: ValidationConfigView, e: DomainEntryView) -> Option<Seq<char>> {
    if !e.enabled {
        Some("Domain '"@ + e.domain + "' is disabled"@)
    } else if e.trust_level < config.min_trust_level {
        Some("Domain '"@ + e.domain + "' trust level ("@ + dec_str(e.trust_level as nat) + ") below minimum required ("@
            + dec_str(config.min_trust_level as nat) + ")"@)
    } else if config.allowed_categories.len() > 0 && !config.allowed_categories.contains(e.category) {
        Some("Domain '"@ + e.domain + "' category '"@ + category_debug_text(e.category) + "' not in allowed categories"@)
    } else if config.allowed_tags.len() > 0 && !(exists|i: int| 0 <= i < e.tags.len() && config.allowed_tags.contains(e.tags[i])) {
        Some("Domain '"@ + e.domain + "' does not have any allowed tags"@)
    } else {
        None
    }
}

/// `domain` is a subdomain of the entry's domain.
pub open spec fn is_subdomain_of(domain: Seq<char>, e: DomainEntryView) -> bool {
    seq_ends_with(domain, "."@ + e.domain)
}

/// Entry number `k` is the first one that `domain` is a subdomain of.
pub open spec fn is_first_parent(s: Seq<DomainEntryView>, domain: Seq<char>, k: int) -> bool {
    &&& 0 <= k < s.len()
    &&& is_subdomain_of(domain, s[k])
    &&& forall|j: int| 0 <= j < k ==> !is_subdomain_of(domain, #[trigger] s[j])
}

/// The verdict on a domain: `None` when it may be used, otherwise the text
/// of the compliance error. A listed domain is judged by its entry; with
/// subdomains allowed, an unlisted domain is judged by the first entry it is
/// a subdomain of; any other domain is refused in strict mode only.
pub open spec fn domain_verdict(config: ValidationConfigView, s: Seq<DomainEntryView>, domain: Seq<char>) -> Option<Seq<char>> {
    if !config.enabled {
        None
    } else if has_domain(s, domain) {
        entry_verdict(config, s[index_of(s, domain)])
    } else if config.allow_subdomains && exists|k: int| is_first_parent(s, domain, k) {
        entry_verdict(config, s[choose|k: int| is_first_parent(s, domain, k)])
    } else if config.strict_mode {
        Some("Domain '"@ + domain + "' is not in the allowed list"@)
    } else {
        None
    }
}

/// The result of a validation whose verdict is `v`: `Ok` for `None`, a
/// compliance error with the verdict's text otherwise.
pub open spec fn matches_verdict(r: Result<(), TurboCdnError>, v: Option<Seq<char>>) -> bool {
    match v {
        None => r is Ok,
        Some(text) => r matches Err(TurboCdnError::Compliance { message }) && message@ == text,
    }
}

impl DomainManager {
    /// No two entries share a domain name.
    #[verifier::type_invariant]
    spec fn names_are_distinct(&self) -> bool {
        distinct_names(self.domains@.map_values(|e: DomainEntry| e@))
    }

    /// The entries, in registration order.
    pub closed spec fn entries(&self) -> Seq<DomainEntryView> {
        self.domains@.map_values(|e: DomainEntry| e@)
    }

    /// The validation configuration.
    pub closed spec fn config_view(&self) -> ValidationConfigView {
        self.config@
    }

    /// The position of the entry named `name`, if any.
    fn find(&self, name: &str) -> (r: Option<usize>)
        ensures
            r matches Some(i) ==> i < self.entries().len() && self.entries()[i as int].domain == name@ && i == index_of(self.entries(), name@),
            r is None <==> !has_domain(self.entries(), name@),
    {
        proof { use_type_invariant(self); }
        let mut i: usize = 0;
        while i < self.domains.len()
            invariant
                i <= self.domains.len(),
                forall|k: int| 0 <= k < i ==> self.domains@[k]@.domain != name@,
            decreases self.domains.len() - i,
        {
            if str_eq(self.domains[i].domain.as_str(), name) {
                proof {
                    use_type_invariant(self);
                    let s = self.entries();
                    assert(s[i as int].domain == name@);
                    let j = index_of(s, name@);
                    assert(0 <= j < s.len() && s[j].domain == name@);
                    if j != i {
                        if j < i { assert(s[j].domain != s[i as int].domain); } else { assert(s[i as int].domain != s[j].domain); }
                    }
                }
                return Some(i);
            }
            i = i + 1;
        }
        proof {
            let s = self.entries();
            assert forall|k: int| !(0 <= k < s.len() && s[k].domain == name@) by {
                if 0 <= k < s.len() {
                    assert(s[k] == self.domains@[k]@);
                }
            }
        }
        None
    }

    /// Add (or replace) an entry whose name is not empty.
    fn insert_entry(&mut self, domain: DomainEntry)
        ensures
            final(self).entries() == inserted(old(self).entries(), domain@),
            final(self).config_view() == old(self).config_view(),
    {
        proof { use_type_invariant(&*self); }
        let ghost s = self.entries();
        let found = self.find(domain.domain.as_str());
        let mut domains: Vec<DomainEntry> = Vec::new();
        std::mem::swap(&mut domains, &mut self.domains);
        assert(domains@.map_values(|e: DomainEntry| e@) == s);
        let ghost d = domain@;
        match found {
            Some(i) => {
                domains.set(i, domain);
                proof {
                    let t = domains@.map_values(|e: DomainEntry| e@);
                    assert(t =~= s.update(i as int, d));
                    assert forall|a: int, b: int| 0 <= a < b < t.len() implies t[a].domain != t[b].domain by {
                        if a != i && b != i {
                            assert(s[a].domain != s[b].domain);
                        }
                    }
                }
            },
            None => {
                domains.push(domain);
                proof {
                    let t = domains@.map_values(|e: DomainEntry| e@);
                    assert(t =~= s.push(d));
                    assert forall|a: int, b: int| 0 <= a < b < t.len() implies t[a].domain != t[b].domain by {
                        if b == s.len() {
                            assert(t[a] == s[a]);
                        } else {
                            assert(s[a].domain != s[b].domain);
                        }
                    }
                }
            },
        }
        self.domains = domains;
    }
}

/// The names of the built-in domains differ from one another.
proof fn lemma_builtin_names_distinct()
    ensures
        distinct_names(builtin_domains()),
{
    reveal_strlit("github.com");
    reveal_strlit("githubusercontent.com");
    reveal_strlit("gitlab.com");
    reveal_strlit("bitbucket.org");
    reveal_strlit("cdn.jsdelivr.net");
    reveal_strlit("fastly.jsdelivr.net");
    reveal_strlit("cdnjs.cloudflare.com");
    reveal_strlit("unpkg.com");
    reveal_strlit("registry.npmjs.org");
    reveal_strlit("pypi.org");
    reveal_strlit("files.pythonhosted.org");
    reveal_strlit("crates.io");
    reveal_strlit("repo1.maven.org");
    reveal_strlit("central.sonatype.com");
    reveal_strlit("nodejs.org");
    reveal_strlit("golang.org");
    reveal_strlit("go.dev");
    reveal_strlit("forge.rust-lang.org");
    reveal_strlit("static.rust-lang.org");
    reveal_strlit("download.qt.io");
    reveal_strlit("archive.apache.org");
    reveal_strlit("releases.hashicorp.com");
    let s = builtin_domains();
    assert forall|i: int, j: int| 0 <= i < j < s.len() implies s[i].domain != s[j].domain by {
        if s[i].domain == s[j].domain {
            assert(s[i].domain.len() == s[j].domain.len());
            assert(s[i].domain[0] == s[j].domain[0]);
            assert(s[i].domain[1] == s[j].domain[1]);
            assert(s[i].domain[2] == s[j].domain[2]);
            assert(s[i].domain[3] == s[j].domain[3]);
            assert(s[i].domain[4] == s[j].domain[4]);
            assert(s[i].domain[5] == s[j].domain[5]);
            assert(s[i].domain[6] == s[j].domain[6]);
        }
    }
}

impl DomainManager {
    /// Registers the built-in trusted domains in an empty manager.
    fn add_builtin_domains(&mut self)
        requires
            old(self).entries().len() == 0,
        ensures
            final(self).entries() == builtin_domains(),
            final(self).config_view() == old(self).config_view(),
    {
        let mut list: Vec<DomainEntry> = Vec::new();
        list.push(builtin("github.com", DomainCategory::VersionControl, "GitHub - Git repository hosting", tags_of("git", Some("opensource"), None), 95));
        list.push(builtin("githubusercontent.com", DomainCategory::VersionControl, "GitHub raw content", tags_of("git", Some("raw"), None), 95));
        list.push(builtin("gitlab.com", DomainCategory::VersionControl, "GitLab - Git repository hosting", tags_of("git", Some("opensource"), None), 90));
        list.push(builtin("bitbucket.org", DomainCategory::VersionControl, "Bitbucket - Git repository hosting", tags_of("git", None, None), 85));
        list.push(builtin("cdn.jsdelivr.net", DomainCategory::CDN, "jsDelivr CDN", tags_of("cdn", Some("fast"), None), 90));
        list.push(builtin("fastly.jsdelivr.net", DomainCategory::CDN, "jsDelivr CDN via Fastly", tags_of("cdn", Some("fast"), None), 90));
        list.push(builtin("cdnjs.cloudflare.com", DomainCategory::CDN, "Cloudflare CDN", tags_of("cdn", Some("cloudflare"), None), 90));
        list.push(builtin("unpkg.com", DomainCategory::CDN, "unpkg CDN for npm packages", tags_of("cdn", Some("npm"), None), 85));
        list.push(builtin("registry.npmjs.org", DomainCategory::PackageRegistry, "npm package registry", tags_of("npm", Some("javascript"), None), 95));
        list.push(builtin("pypi.org", DomainCategory::PackageRegistry, "Python Package Index", tags_of("python", Some("pip"), None), 95));
        list.push(builtin("files.pythonhosted.org", DomainCategory::PackageRegistry, "PyPI file hosting", tags_of("python", Some("pip"), None), 95));
        list.push(builtin("crates.io", DomainCategory::PackageRegistry, "Rust package registry", tags_of("rust", Some("cargo"), None), 95));
        list.push(builtin("repo1.maven.org", DomainCategory::PackageRegistry, "Maven Central Repository", tags_of("java", Some("maven"), None), 95));
        list.push(builtin("central.sonatype.com", DomainCategory::PackageRegistry, "Sonatype Maven Central", tags_of("java", Some("maven"), None), 90));
        list.push(builtin("nodejs.org", DomainCategory::Official, "Node.js official website", tags_of("nodejs", Some("javascript"), Some("official")), 100));
        list.push(builtin("golang.org", DomainCategory::Official, "Go programming language official site", tags_of("go", Some("golang"), Some("official")), 100));
        list.push(builtin("go.dev", DomainCategory::Official, "Go development hub", tags_of("go", Some("golang"), Some("official")), 100));
        list.push(builtin("forge.rust-lang.org", DomainCategory::Official, "Rust language forge", tags_of("rust", Some("official"), None), 100));
        list.push(builtin("static.rust-lang.org", DomainCategory::Official, "Rust static resources", tags_of("rust", Some("official"), None), 100));
        list.push(builtin("download.qt.io", DomainCategory::Official, "Qt framework downloads", tags_of("qt", Some("cpp"), Some("official")), 95));
        list.push(builtin("archive.apache.org", DomainCategory::Archive, "Apache Software Foundation archive", tags_of("apache", Some("archive"), None), 95));
        list.push(builtin("releases.hashicorp.com", DomainCategory::Archive, "HashiCorp releases", tags_of("hashicorp", Some("terraform"), None), 90));
        let ghost b = builtin_domains();
        assert(list@.map_values(|e: DomainEntry| e@) =~= b);
        proof {
            lemma_builtin_names_distinct();
        }
        let mut k: usize = 0;
        while k < list.len()
            invariant
                k <= list.len(),
                list@.map_values(|e: DomainEntry| e@) == b,
                distinct_names(b),
                self.entries() == b.subrange(0, k as int),
                self.config_view() == old(self).config_view(),
            decreases list.len() - k,
        {
            let ghost before = self.entries();
            assert(list@[k as int]@ == b[k as int]);
            proof {
                assert forall|i: int| !(0 <= i < before.len() && before[i].domain == b[k as int].domain) by {
                    if 0 <= i < before.len() {
                        assert(before[i] == b[i]);
                    }
                }
            }
            self.insert_entry(list[k].duplicate());
            assert(self.entries() =~= b.subrange(0, k + 1));
            k = k + 1;
        }
        assert(b.subrange(0, 22) =~= b);
    }

    /// Create a new domain manager with built-in trusted domains and the
    /// default validation configuration
    pub fn new() -> (m: Self)
        ensures
            m.entries() == builtin_domains(),
            m.config_view() == unrestricted_config(true, true, true, 50),
            distinct_names(m.entries()),
    {
        let mut manager = DomainManager { domains: Vec::new(), config: DomainValidationConfig::default() };
        assert(manager.entries() =~= Seq::empty());
        manager.add_builtin_domains();
        proof { use_type_invariant(&manager); }
        manager
    }

    /// Create domain manager with custom config
    pub fn with_config(config: DomainValidationConfig) -> (m: Self)
        ensures
            m.entries() == builtin_domains(),
            m.config_view() == config@,
            distinct_names(m.entries()),
    {
        let mut manager = DomainManager { domains: Vec::new(), config };
        assert(manager.entries() =~= Seq::empty());
        manager.add_builtin_domains();
        proof { use_type_invariant(&manager); }
        manager
    }

    /// Add a custom domain; an entry with the same name is replaced
    pub fn add_domain(&mut self, domain: DomainEntry) -> (r: Result<(), TurboCdnError>)
        ensures
            domain@.domain.len() == 0 ==> (r matches Err(TurboCdnError::Config { message }) && message@
                == "Domain name cannot be empty"@ && final(self).entries() == old(self).entries()),
            domain@.domain.len() > 0 ==> (r is Ok && final(self).entries() == inserted(old(self).entries(), domain@)),
            final(self).config_view() == old(self).config_view(),
            distinct_names(final(self).entries()),
    {
        proof { use_type_invariant(&*self); }
        if domain.domain.unicode_len() == 0 {
            return Err(TurboCdnError::config("Domain name cannot be empty"));
        }
        self.insert_entry(domain);
        proof { use_type_invariant(&*self); }
        Ok(())
    }

    /// Add multiple domains, in order; stops at the first entry with an empty
    /// name, keeping those added before it
    pub fn add_domains(&mut self, domains: Vec<DomainEntry>) -> (r: Result<(), TurboCdnError>)
        ensures
            final(self).entries() == add_all(old(self).entries(), domains@.map_values(|e: DomainEntry| e@)).0,
            r is Ok <==> add_all(old(self).entries(), domains@.map_values(|e: DomainEntry| e@)).1,
            r is Err ==> (r matches Err(TurboCdnError::Config { message }) && message@ == "Domain name cannot be empty"@),
            final(self).config_view() == old(self).config_view(),
            distinct_names(final(self).entries()),
    {
        proof { use_type_invariant(&*self); }
        let ghost es = domains@.map_values(|e: DomainEntry| e@);
        let ghost target = add_all(old(self).entries(), es);
        assert(es.subrange(0, es.len() as int) =~= es);
        let mut k: usize = 0;
        while k < domains.len()
            invariant
                k <= domains.len(),
                es == domains@.map_values(|e: DomainEntry| e@),
                add_all(self.entries(), es.subrange(k as int, es.len() as int)) == target,
                target == add_all(old(self).entries(), es),
                self.config_view() == old(self).config_view(),
            decreases domains.len() - k,
        {
            let ghost rest = es.subrange(k as int, es.len() as int);
            assert(rest[0] == domains@[k as int]@);
            assert(rest.drop_first() =~= es.subrange(k + 1, es.len() as int));
            let ghost cur = self.entries();
            let r = self.add_domain(domains[k].duplicate());
            if r.is_err() {
                assert(rest[0].domain.len() == 0);
                assert(add_all(cur, rest) == (cur, false));
                proof { use_type_invariant(&*self); }
                return r;
            }
            assert(add_all(cur, rest) == add_all(inserted(cur, rest[0]), rest.drop_first()));
            k = k + 1;
        }
        assert(es.subrange(k as int, es.len() as int) =~= Seq::<DomainEntryView>::empty());
        proof { use_type_invariant(&*self); }
        Ok(())
    }

    /// Remove a domain; tells whether it was registered
    pub fn remove_domain(&mut self, domain: &str) -> (r: bool)
        ensures
            r == has_domain(old(self).entries(), domain@),
            final(self).entries() == removed(old(self).entries(), domain@),
            final(self).config_view() == old(self).config_view(),
            distinct_names(final(self).entries()),
    {
        proof { use_type_invariant(&*self); }
        let ghost s = self.entries();
        match self.find(domain) {
            Some(i) => {
                let mut domains: Vec<DomainEntry> = Vec::new();
                std::mem::swap(&mut domains, &mut self.domains);
                assert(domains@.map_values(|e: DomainEntry| e@) == s);
                domains.remove(i);
                proof {
                    let t = domains@.map_values(|e: DomainEntry| e@);
                    assert(t =~= s.remove(i as int));
                    assert forall|a: int, b: int| 0 <= a < b < t.len() implies t[a].domain != t[b].domain by {
                        let a2 = if a < i { a } else { a + 1 };
                        let b2 = if b < i { b } else { b + 1 };
                        assert(t[a] == s[a2] && t[b] == s[b2]);
                        assert(s[a2].domain != s[b2].domain);
                    }
                }
                self.domains = domains;
                proof { use_type_invariant(&*self); }
                true
            },
            None => false,
        }
    }

    /// Enable or disable a domain
    pub fn set_domain_enabled(&mut self, domain: &str, enabled: bool) -> (r: Result<(), TurboCdnError>)
        ensures
            has_domain(old(self).entries(), domain@) ==> (r is Ok && final(self).entries() == old(self).entries().update(
                index_of(old(self).entries(), domain@),
                DomainEntryView { enabled, ..old(self).entries()[index_of(old(self).entries(), domain@)] },
            )),
            !has_domain(old(self).entries(), domain@) ==> (r matches Err(TurboCdnError::Config { message }) && message@
                == "Domain '"@ + domain@ + "' not found"@ && final(self).entries() == old(self).entries()),
            final(self).config_view() == old(self).config_view(),
            distinct_names(final(self).entries()),
    {
        proof { use_type_invariant(&*self); }
        let ghost s = self.entries();
        match self.find(domain) {
            Some(i) => {
                let mut domains: Vec<DomainEntry> = Vec::new();
                std::mem::swap(&mut domains, &mut self.domains);
                assert(domains@.map_values(|e: DomainEntry| e@) == s);
                let mut entry = domains[i].duplicate();
                entry.enabled = enabled;
                domains.set(i, entry);
                proof {
                    let t = domains@.map_values(|e: DomainEntry| e@);
                    assert(t =~= s.update(i as int, DomainEntryView { enabled, ..s[i as int] }));
                    assert forall|a: int, b: int| 0 <= a < b < t.len() implies t[a].domain != t[b].domain by {
                        assert(s[a].domain != s[b].domain);
                    }
                }
                self.domains = domains;
                proof { use_type_invariant(&*self); }
                Ok(())
            },
            None => Err(TurboCdnError::Config { message: concat3("Domain '", domain, "' not found") }),
        }
    }

    /// Get domain entry
    pub fn get_domain(&self, domain: &str) -> (r: Option<&DomainEntry>)
        ensures
            r is Some <==> has_domain(self.entries(), domain@),
            r matches Some(e) ==> e@ == self.entries()[index_of(self.entries(), domain@)],
            distinct_names(self.entries()),
    {
        proof { use_type_invariant(self); }
        match self.find(domain) {
            Some(i) => Some(&self.domains[i]),
            None => None,
        }
    }

    /// List all domains
    pub fn list_domains(&self) -> (r: Vec<&DomainEntry>)
        ensures
            ref_views(r@) == self.entries(),
    {
        let mut r: Vec<&DomainEntry> = Vec::new();
        let mut i: usize = 0;
        while i < self.domains.len()
            invariant
                i <= self.domains.len(),
                r@.len() == i,
                forall|j: int| 0 <= j < i ==> (#[trigger] r@[j])@ == self.domains@[j]@,
            decreases self.domains.len() - i,
        {
            r.push(&self.domains[i]);
            i = i + 1;
        }
        assert(ref_views(r@) =~= self.entries());
        r
    }

    /// List domains by category
    pub fn list_domains_by_category(&self, category: &DomainCategory) -> (r: Vec<&DomainEntry>)
        ensures
            ref_views(r@) == filter_entries(self.entries(), |e: DomainEntryView| e.category == category@),
    {
        let ghost pred = |e: DomainEntryView| e.category == category@;
        let mut r: Vec<&DomainEntry> = Vec::new();
        let mut i: usize = 0;
        while i < self.domains.len()
            invariant
                i <= self.domains.len(),
                pred == (|e: DomainEntryView| e.category == category@),
                ref_views(r@) == filter_entries(self.entries().subrange(0, i as int), pred),
            decreases self.domains.len() - i,
        {
            let ghost s = self.entries().subrange(0, i + 1);
            assert(s.drop_last() =~= self.entries().subrange(0, i as int));
            assert(s[i as int] == self.domains@[i as int]@);
            if self.domains[i].category.same_as(category) {
                r.push(&self.domains[i]);
            }
            assert(ref_views(r@) =~= filter_entries(s, pred));
            i = i + 1;
        }
        assert(self.entries().subrange(0, i as int) =~= self.entries());
        r
    }

    /// List domains by tag
    pub fn list_domains_by_tag(&self, tag: &str) -> (r: Vec<&DomainEntry>)
        ensures
            ref_views(r@) == filter_entries(self.entries(), |e: DomainEntryView| e.tags.contains(tag@)),
    {
        let ghost pred = |e: DomainEntryView| e.tags.contains(tag@);
        let mut r: Vec<&DomainEntry> = Vec::new();
        let mut i: usize = 0;
        while i < self.domains.len()
            invariant
                i <= self.domains.len(),
                pred == (|e: DomainEntryView| e.tags.contains(tag@)),
                ref_views(r@) == filter_entries(self.entries().subrange(0, i as int), pred),
            decreases self.domains.len() - i,
        {
            let ghost s = self.entries().subrange(0, i + 1);
            assert(s.drop_last() =~= self.entries().subrange(0, i as int));
            assert(s[i as int] == self.domains@[i as int]@);
            let has = crate::text::contains_string(&self.domains[i].tags, tag);
            proof {
                let tags = self.domains@[i as int].tags@;
                if has {
                    let j = choose|j: int| 0 <= j < tags.len() && tags[j]@ == tag@;
                    assert(string_views(tags)[j] == tag@);
                } else {
                    assert forall|j: int| 0 <= j < string_views(tags).len() implies string_views(tags)[j] != tag@ by {
                        assert(string_views(tags)[j] == tags[j]@);
                    }
                }
            }
            if has {
                r.push(&self.domains[i]);
            }
            assert(ref_views(r@) =~= filter_entries(s, pred));
            i = i + 1;
        }
        assert(self.entries().subrange(0, i as int) =~= self.entries());
        r
    }

    /// Update validation configuration
    pub fn set_config(&mut self, config: DomainValidationConfig)
        ensures
            final(self).config_view() == config@,
            final(self).entries() == old(self).entries(),
            distinct_names(final(self).entries()),
    {
        proof { use_type_invariant(&*self); }
        self.config = config;
    }

    /// Get current configuration
    pub fn get_config(&self) -> (r: &DomainValidationConfig)
        ensures
            r@ == self.config_view(),
    {
        &self.config
    }
}

/// The verdict on a URL: `None` when it may be used, otherwise the text of
/// the compliance error.
pub open spec fn url_verdict(config: ValidationConfigView, s: Seq<DomainEntryView>, url: Seq<char>) -> Option<Seq<char>> {
    if !config.enabled {
        None
    } else {
        match url_domain_outcome(url) {
            Err(e) => Some("Invalid URL: "@ + e),
            Ok(None) => Some("URL does not have a valid domain"@),
            Ok(Some(d)) => domain_verdict(config, s, d),
        }
    }
}

impl DomainManager {
    /// Validate a URL against domain rules
    pub fn validate_url(&self, url: &str) -> (r: Result<(), TurboCdnError>)
        ensures
            matches_verdict(r, url_verdict(self.config_view(), self.entries(), url@)),
    {
        if !self.config.enabled {
            return Ok(());
        }
        match parse_url_domain(url) {
            Err(e) => Err(TurboCdnError::Compliance { message: crate::text::concat2("Invalid URL: ", e.as_str()) }),
            Ok(None) => Err(TurboCdnError::compliance("URL does not have a valid domain")),
            Ok(Some(d)) => self.validate_domain(d.as_str()),
        }
    }

    /// Validate a domain against rules
    pub fn validate_domain(&self, domain: &str) -> (r: Result<(), TurboCdnError>)
        ensures
            matches_verdict(r, domain_verdict(self.config_view(), self.entries(), domain@)),
    {
        if !self.config.enabled {
            return Ok(());
        }
        match self.find(domain) {
            Some(i) => {
                return self.validate_domain_entry(&self.domains[i]);
            },
            None => {},
        }
        if self.config.allow_subdomains {
            let dv = chars_of(domain);
            let mut k: usize = 0;
            while k < self.domains.len()
                invariant
                    k <= self.domains.len(),
                    dv@ == domain@,
                    !has_domain(self.entries(), domain@),
                    self.config.enabled,
                    self.config.allow_subdomains,
                    forall|j: int| 0 <= j < k ==> !is_subdomain_of(domain@, #[trigger] self.entries()[j]),
                decreases self.domains.len() - k,
            {
                let suffix = crate::text::concat2(".", self.domains[k].domain.as_str());
                let sv = chars_of(suffix.as_str());
                assert(self.entries()[k as int] == self.domains@[k as int]@);
                if chars_ends_with(&dv, &sv) {
                    proof {
                        let s = self.entries();
                        assert(is_first_parent(s, domain@, k as int));
                        let c = choose|c: int| is_first_parent(s, domain@, c);
                        if c != k {
                            if c < k {
                                assert(!is_subdomain_of(domain@, s[c]));
                            } else {
                                assert(!is_subdomain_of(domain@, s[k as int]));
                            }
                        }
                    }
                    return self.validate_domain_entry(&self.domains[k]);
                }
                k = k + 1;
            }
            proof {
                let s = self.entries();
                assert forall|c: int| !is_first_parent(s, domain@, c) by {
                    if 0 <= c < s.len() {
                        assert(!is_subdomain_of(domain@, s[c]));
                    }
                }
            }
        }
        if self.config.strict_mode {
            return Err(TurboCdnError::Compliance { message: concat3("Domain '", domain, "' is not in the allowed list") });
        }
        Ok(())
    }

    /// Whether the allowed categories hold `category`.
    fn category_allowed(&self, category: &DomainCategory) -> (r: bool)
        ensures
            r == self.config_view().allowed_categories.contains(category@),
    {
        let cats = &self.config.allowed_categories;
        let mut i: usize = 0;
        while i < cats.len()
            invariant
                i <= cats.len(),
                cats == &self.config.allowed_categories,
                forall|j: int| 0 <= j < i ==> cats@[j]@ != category@,
            decreases cats.len() - i,
        {
            if cats[i].same_as(category) {
                assert(self.config_view().allowed_categories[i as int] == category@);
                return true;
            }
            i = i + 1;
        }
        proof {
            let v = self.config_view().allowed_categories;
            assert forall|j: int| 0 <= j < v.len() implies v[j] != category@ by {
                assert(v[j] == cats@[j]@);
            }
        }
        false
    }

    /// Whether one of the entry's tags is an allowed tag.
    fn has_allowed_tag(&self, entry: &DomainEntry) -> (r: bool)
        ensures
            r == exists|i: int| 0 <= i < entry@.tags.len() && self.config_view().allowed_tags.contains(entry@.tags[i]),
    {
        let mut i: usize = 0;
        while i < entry.tags.len()
            invariant
                i <= entry.tags.len(),
                forall|j: int| 0 <= j < i ==> !self.config_view().allowed_tags.contains(#[trigger] entry@.tags[j]),
            decreases entry.tags.len() - i,
        {
            let allowed = crate::text::contains_string(&self.config.allowed_tags, entry.tags[i].as_str());
            proof {
                let v = self.config_view().allowed_tags;
                assert(entry@.tags[i as int] == entry.tags@[i as int]@);
                if allowed {
                    let j = choose|j: int| 0 <= j < self.config.allowed_tags@.len() && self.config.allowed_tags@[j]@ == entry.tags@[i as int]@;
                    assert(v[j] == entry@.tags[i as int]);
                } else {
                    assert forall|j: int| 0 <= j < v.len() implies v[j] != entry@.tags[i as int] by {
                        assert(v[j] == self.config.allowed_tags@[j]@);
                    }
                }
            }
            if allowed {
                return true;
            }
            i = i + 1;
        }
        false
    }

    /// Validate a domain entry against configuration rules
    fn validate_domain_entry(&self, entry: &DomainEntry) -> (r: Result<(), TurboCdnError>)
        ensures
            matches_verdict(r, entry_verdict(self.config_view(), entry@)),
    {
        if !entry.enabled {
            return Err(TurboCdnError::Compliance { message: concat3("Domain '", entry.domain.as_str(), "' is disabled") });
        }
        if entry.trust_level < self.config.min_trust_level {
            let mut m = concat3("Domain '", entry.domain.as_str(), "' trust level (");
            push_decimal(&mut m, entry.trust_level as u64);
            m.append(") below minimum required (");
            push_decimal(&mut m, self.config.min_trust_level as u64);
            m.append(")");
            return Err(TurboCdnError::Compliance { message: m });
        }
        if self.config.allowed_categories.len() > 0 && !self.category_allowed(&entry.category) {
            let mut m = concat3("Domain '", entry.domain.as_str(), "' category '");
            let d = entry.category.debug_text();
            m.append(d.as_str());
            m.append("' not in allowed categories");
            return Err(TurboCdnError::Compliance { message: m });
        }
        if self.config.allowed_tags.len() > 0 && !self.has_allowed_tag(entry) {
            return Err(TurboCdnError::Compliance {
                message: concat3("Domain '", entry.domain.as_str(), "' does not have any allowed tags"),
            });
        }
        Ok(())
    }
}

// ---------------------------------------------------------------------------
// Statistics
// ---------------------------------------------------------------------------

/// Domain statistics. The per-category and per-trust-level counts list each
/// key once, in the order the key first occurs among the entries.
#[derive(Debug, Clone)]
pub struct DomainStats {
    pub total: usize,
    pub enabled: usize,
    pub disabled: usize,
    pub by_category: Vec<(DomainCategory, usize)>,
    pub by_trust_level: Vec<(String, usize)>,
}

/// The table `t` with one more occurrence of key `k`.
pub open spec fn bump<K>(t: Seq<(K, nat)>, k: K) -> Seq<(K, nat)> {
    if exists|i: int| 0 <= i < t.len() && t[i].0 == k {
        let i = choose|i: int| 0 <= i < t.len() && t[i].0 == k;
        t.update(i, (k, t[i].1 + 1))
    } else {
        t.push((k, 1nat))
    }
}

/// How often each key occurs, keys in order of first occurrence.
pub open spec fn tally<K>(keys: Seq<K>) -> Seq<(K, nat)>
    decreases keys.len(),
{
    if keys.len() == 0 {
        Seq::empty()
    } else {
        bump(tally(keys.drop_last()), keys[keys.len() - 1])
    }
}

/// No key appears twice in a table.
pub open spec fn keys_distinct<K>(t: Seq<(K, nat)>) -> bool {
    forall|i: int, j: int| 0 <= i < j < t.len() ==> t[i].0 != t[j].0
}

/// The number of enabled entries.
pub open spec fn count_enabled(s: Seq<DomainEntryView>) -> nat
    decreases s.len(),
{
    if s.len() == 0 {
        0
    } else {
        count_enabled(s.drop_last()) + if s[s.len() - 1].enabled { 1nat } else { 0nat }
    }
}

/// The trust-level bracket of a trust level.
pub open spec fn trust_bucket(t: u8) -> Seq<char> {
    if 90 <= t <= 100 {
        "High (90-100)"@
    } else if 70 <= t <= 89 {
        "Medium (70-89)"@
    } else if 50 <= t <= 69 {
        "Low (50-69)"@
    } else {
        "Very Low (0-49)"@
    }
}

/// The views of a category count table.
pub open spec fn category_table(v: Seq<(DomainCategory, usize)>) -> Seq<(CategoryView, nat)> {
    v.map_values(|p: (DomainCategory, usize)| (p.0@, p.1 as nat))
}

/// The views of a trust-level count table.
pub open spec fn bucket_table(v: Seq<(String, usize)>) -> Seq<(Seq<char>, nat)> {
    v.map_values(|p: (String, usize)| (p.0@, p.1 as nat))
}

/// A table keeps distinct keys when one more key is counted.
proof fn lemma_bump_distinct<K>(t: Seq<(K, nat)>, k: K)
    requires
        keys_distinct(t),
    ensures
        keys_distinct(bump(t, k)),
        bump(t, k).len() <= t.len() + 1,
{
    let b = bump(t, k);
    if exists|i: int| 0 <= i < t.len() && t[i].0 == k {
        let i = choose|i: int| 0 <= i < t.len() && t[i].0 == k;
        assert forall|a: int, c: int| 0 <= a < c < b.len() implies b[a].0 != b[c].0 by {
            assert(t[a].0 != t[c].0);
        }
    } else {
        assert forall|a: int, c: int| 0 <= a < c < b.len() implies b[a].0 != b[c].0 by {
            if c < t.len() {
                assert(t[a].0 != t[c].0);
            }
        }
    }
}

/// Counting one occurrence into a table with distinct keys: the position
/// whose key matches (found by a search) is bumped.
proof fn lemma_bump_at<K>(t: Seq<(K, nat)>, k: K, j: int)
    requires
        keys_distinct(t),
        0 <= j < t.len(),
        t[j].0 == k,
    ensures
        bump(t, k) == t.update(j, (k, t[j].1 + 1)),
{
    let i = choose|i: int| 0 <= i < t.len() && t[i].0 == k;
    if i != j {
        if i < j { assert(t[i].0 != t[j].0); } else { assert(t[j].0 != t[i].0); }
    }
}

/// The keys of a tally are distinct and it holds no more rows than keys.
proof fn lemma_tally_distinct<K>(keys: Seq<K>)
    ensures
        keys_distinct(tally(keys)),
        tally(keys).len() <= keys.len(),
    decreases keys.len(),
{
    if keys.len() > 0 {
        lemma_tally_distinct(keys.drop_last());
        lemma_bump_distinct(tally(keys.drop_last()), keys[keys.len() - 1]);
    }
}

/// Every count of a tally is at most the number of keys counted.
proof fn lemma_tally_counts_bounded<K>(keys: Seq<K>)
    ensures
        forall|i: int| 0 <= i < tally(keys).len() ==> (#[trigger] tally(keys)[i]).1 <= keys.len(),
    decreases keys.len(),
{
    if keys.len() > 0 {
        let d = keys.drop_last();
        let t = tally(d);
        let k = keys[keys.len() - 1];
        lemma_tally_counts_bounded(d);
        assert(tally(keys) == bump(t, k));
        assert forall|i: int| 0 <= i < bump(t, k).len() implies (#[trigger] bump(t, k)[i]).1 <= keys.len() by {
            if exists|a: int| 0 <= a < t.len() && t[a].0 == k {
                let j = choose|a: int| 0 <= a < t.len() && t[a].0 == k;
                assert(t[j].1 <= d.len());
                if i != j {
                    assert(t[i].1 <= d.len());
                }
            } else {
                if i < t.len() {
                    assert(t[i].1 <= d.len());
                }
            }
        }
    }
}

/// The position of `c` in a category table.
fn find_category(v: &Vec<(DomainCategory, usize)>, c: &DomainCategory) -> (r: Option<usize>)
    ensures
        r matches Some(j) ==> j < v.len() && category_table(v@)[j as int].0 == c@,
        r is None ==> forall|a: int| 0 <= a < v.len() ==> category_table(v@)[a].0 != c@,
{
    let mut j: usize = 0;
    while j < v.len()
        invariant
            j <= v.len(),
            forall|a: int| 0 <= a < j ==> category_table(v@)[a].0 != c@,
        decreases v.len() - j,
    {
        if v[j].0.same_as(c) {
            return Some(j);
        }
        j = j + 1;
    }
    None
}

/// The position of `b` in a trust-level table.
fn find_bucket(v: &Vec<(String, usize)>, b: &str) -> (r: Option<usize>)
    ensures
        r matches Some(j) ==> j < v.len() && bucket_table(v@)[j as int].0 == b@,
        r is None ==> forall|a: int| 0 <= a < v.len() ==> bucket_table(v@)[a].0 != b@,
{
    let mut j: usize = 0;
    while j < v.len()
        invariant
            j <= v.len(),
            forall|a: int| 0 <= a < j ==> bucket_table(v@)[a].0 != b@,
        decreases v.len() - j,
    {
        if str_eq(v[j].0.as_str(), b) {
            return Some(j);
        }
        j = j + 1;
    }
    None
}

impl DomainManager {
    /// Get statistics about managed domains
    pub fn get_stats(&self) -> (r: DomainStats)
        ensures
            r.total == self.entries().len(),
            r.enabled == count_enabled(self.entries()),
            r.disabled == self.entries().len() - count_enabled(self.entries()),
            category_table(r.by_category@) == tally(self.entries().map_values(|e: DomainEntryView| e.category)),
            bucket_table(r.by_trust_level@) == tally(self.entries().map_values(|e: DomainEntryView| trust_bucket(e.trust_level))),
            table_sum(category_table(r.by_category@)) == r.total,
            table_sum(bucket_table(r.by_trust_level@)) == r.total,
    {
        let ghost s = self.entries();
        let ghost cats = s.map_values(|e: DomainEntryView| e.category);
        let ghost buckets = s.map_values(|e: DomainEntryView| trust_bucket(e.trust_level));
        let total = self.domains.len();
        let mut enabled: usize = 0;
        let mut by_category: Vec<(DomainCategory, usize)> = Vec::new();
        let mut by_trust_level: Vec<(String, usize)> = Vec::new();
        let mut i: usize = 0;
        while i < total
            invariant
                total == self.domains.len(),
                s == self.entries(),
                cats == s.map_values(|e: DomainEntryView| e.category),
                buckets == s.map_values(|e: DomainEntryView| trust_bucket(e.trust_level)),
                i <= total,
                enabled == count_enabled(s.subrange(0, i as int)),
                enabled <= i,
                category_table(by_category@) == tally(cats.subrange(0, i as int)),
                bucket_table(by_trust_level@) == tally(buckets.subrange(0, i as int)),
            decreases total - i,
        {
            let entry = &self.domains[i];
            assert(s[i as int] == entry@);
            assert(s.subrange(0, i + 1).drop_last() =~= s.subrange(0, i as int));
            assert(cats.subrange(0, i + 1).drop_last() =~= cats.subrange(0, i as int));
            assert(buckets.subrange(0, i + 1).drop_last() =~= buckets.subrange(0, i as int));
            if entry.enabled {
                enabled = enabled + 1;
            }
            proof {
                lemma_tally_distinct(cats.subrange(0, i as int));
                lemma_tally_distinct(buckets.subrange(0, i as int));
                lemma_tally_counts_bounded(cats.subrange(0, i as int));
                lemma_tally_counts_bounded(buckets.subrange(0, i as int));
            }
            // count the category
            let ghost ct = category_table(by_category@);
            match find_category(&by_category, &entry.category) {
                Some(j) => {
                    let n = by_category[j].1;
                    assert(ct[j as int].1 <= i);
                    let c = entry.category.duplicate();
                    by_category.set(j, (c, n + 1));
                    proof {
                        lemma_bump_at(ct, entry.category@, j as int);
                        assert(category_table(by_category@) =~= ct.update(j as int, (entry.category@, ct[j as int].1 + 1)));
                    }
                },
                None => {
                    let c = entry.category.duplicate();
                    by_category.push((c, 1));
                    proof {
                        assert(!(exists|a: int| 0 <= a < ct.len() && ct[a].0 == entry.category@));
                        assert(category_table(by_category@) =~= ct.push((entry.category@, 1nat)));
                    }
                },
            }
            assert(category_table(by_category@) == tally(cats.subrange(0, i + 1)));
            // count the trust bracket
            let bucket: &str = if 90 <= entry.trust_level && entry.trust_level <= 100 {
                "High (90-100)"
            } else if 70 <= entry.trust_level && entry.trust_level <= 89 {
                "Medium (70-89)"
            } else if 50 <= entry.trust_level && entry.trust_level <= 69 {
                "Low (50-69)"
            } else {
                "Very Low (0-49)"
            };
            assert(bucket@ == trust_bucket(entry.trust_level));
            let ghost bt = bucket_table(by_trust_level@);
            match find_bucket(&by_trust_level, bucket) {
                Some(j) => {
                    let n = by_trust_level[j].1;
                    assert(bt[j as int].1 <= i);
                    by_trust_level.set(j, (owned(bucket), n + 1));
                    proof {
                        lemma_bump_at(bt, bucket@, j as int);
                        assert(bucket_table(by_trust_level@) =~= bt.update(j as int, (bucket@, bt[j as int].1 + 1)));
                    }
                },
                None => {
                    by_trust_level.push((owned(bucket), 1));
                    proof {
                        assert(!(exists|a: int| 0 <= a < bt.len() && bt[a].0 == bucket@));
                        assert(bucket_table(by_trust_level@) =~= bt.push((bucket@, 1nat)));
                    }
                },
            }
            assert(bucket_table(by_trust_level@) == tally(buckets.subrange(0, i + 1)));
            i = i + 1;
        }
        assert(s.subrange(0, total as int) =~= s);
        assert(cats.subrange(0, total as int) =~= cats);
        assert(buckets.subrange(0, total as int) =~= buckets);
        proof {
            lemma_stats_account_for_all(s);
        }
        DomainStats { total, enabled, disabled: total - enabled, by_category, by_trust_level }
    }
}

impl Default for DomainManager {
    fn default() -> (m: Self)
        ensures
            m.entries() == builtin_domains(),
            m.config_view() == unrestricted_config(true, true, true, 50),
    {
        Self::new()
    }
}

// ---------------------------------------------------------------------------
// Laws
// ---------------------------------------------------------------------------

/// Reading back an added domain gives the entry that was added; every other
/// name reads as before; and the names stay distinct.
pub proof fn lemma_get_after_add(s: Seq<DomainEntryView>, e: DomainEntryView, other: Seq<char>)
    requires
        distinct_names(s),
    ensures
        lookup(inserted(s, e), e.domain) == Some(e),
        other != e.domain ==> lookup(inserted(s, e), other) == lookup(s, other),
        distinct_names(inserted(s, e)),
{
    let t = inserted(s, e);
    if has_domain(s, e.domain) {
        let i = index_of(s, e.domain);
        assert(t[i].domain == e.domain);
        assert forall|a: int, b: int| 0 <= a < b < t.len() implies t[a].domain != t[b].domain by {
            if a != i && b != i {
                assert(s[a].domain != s[b].domain);
            } else if a == i {
                assert(s[i].domain != s[b].domain);
            } else {
                assert(s[a].domain != s[i].domain);
            }
        }
    } else {
        assert(t[s.len() as int].domain == e.domain);
        assert forall|a: int, b: int| 0 <= a < b < t.len() implies t[a].domain != t[b].domain by {
            if b < s.len() {
                assert(s[a].domain != s[b].domain);
            } else {
                assert(t[a] == s[a]);
            }
        }
    }
    let j = index_of(t, e.domain);
    assert(t[j] == e) by {
        if has_domain(s, e.domain) {
            let i = index_of(s, e.domain);
            if j != i {
                if j < i { assert(t[j].domain != t[i].domain); } else { assert(t[i].domain != t[j].domain); }
            }
        } else {
            if j != s.len() {
                assert(t[j] == s[j]);
            }
        }
    }
    if other != e.domain {
        if has_domain(s, other) {
            let k = index_of(s, other);
            assert(t[k].domain == other);
            let m = index_of(t, other);
            if m != k {
                if m < k { assert(t[m].domain != t[k].domain); } else { assert(t[k].domain != t[m].domain); }
            }
        } else {
            assert forall|m: int| !(0 <= m < t.len() && t[m].domain == other) by {
                if 0 <= m < t.len() && m < s.len() {
                    if has_domain(s, e.domain) && m == index_of(s, e.domain) {
                    } else {
                        assert(t[m] == s[m]);
                    }
                }
            }
        }
    }
}

/// Reading back a domain after enabling or disabling it gives the entry
/// with the new flag; every other name reads as before.
pub proof fn lemma_get_after_set_enabled(s: Seq<DomainEntryView>, name: Seq<char>, enabled: bool, other: Seq<char>)
    requires
        distinct_names(s),
        has_domain(s, name),
    ensures
        lookup(s.update(index_of(s, name), DomainEntryView { enabled, ..s[index_of(s, name)] }), name)
            == Some(DomainEntryView { enabled, ..s[index_of(s, name)] }),
        other != name ==> lookup(s.update(index_of(s, name), DomainEntryView { enabled, ..s[index_of(s, name)] }), other)
            == lookup(s, other),
{
    let e = DomainEntryView { enabled, ..s[index_of(s, name)] };
    assert(e.domain == name);
    assert(inserted(s, e) == s.update(index_of(s, name), e));
    lemma_get_after_add(s, e, other);
}

/// A removed domain is no longer found; every other name reads as before;
/// and the names stay distinct.
pub proof fn lemma_get_after_remove(s: Seq<DomainEntryView>, name: Seq<char>, other: Seq<char>)
    requires
        distinct_names(s),
    ensures
        lookup(removed(s, name), name) is None,
        other != name ==> lookup(removed(s, name), other) == lookup(s, other),
        distinct_names(removed(s, name)),
{
    let t = removed(s, name);
    if has_domain(s, name) {
        let i = index_of(s, name);
        assert forall|a: int| 0 <= a < t.len() implies t[a] == s[if a < i { a } else { a + 1 }] by {}
        assert forall|a: int, b: int| 0 <= a < b < t.len() implies t[a].domain != t[b].domain by {
            let a2 = if a < i { a } else { a + 1 };
            let b2 = if b < i { b } else { b + 1 };
            assert(s[a2].domain != s[b2].domain);
        }
        assert forall|m: int| !(0 <= m < t.len() && t[m].domain == name) by {
            if 0 <= m < t.len() {
                let m2 = if m < i { m } else { m + 1 };
                assert(t[m] == s[m2]);
                if m2 < i { assert(s[m2].domain != s[i].domain); } else { assert(s[i].domain != s[m2].domain); }
            }
        }
        if other != name && has_domain(s, other) {
            let k = index_of(s, other);
            let k2 = if k < i { k } else { k - 1 };
            assert(t[k2] == s[k]);
            let m = index_of(t, other);
            if m != k2 {
                if m < k2 { assert(t[m].domain != t[k2].domain); } else { assert(t[k2].domain != t[m].domain); }
            }
        }
        if other != name && !has_domain(s, other) {
            assert forall|m: int| !(0 <= m < t.len() && t[m].domain == other) by {
                if 0 <= m < t.len() {
                    let m2 = if m < i { m } else { m + 1 };
                    assert(t[m] == s[m2]);
                }
            }
        }
    }
}

/// With validation disabled every domain and every URL is accepted.
pub proof fn lemma_disabled_accepts_all(config: ValidationConfigView, s: Seq<DomainEntryView>, domain: Seq<char>, url: Seq<char>)
    requires
        !config.enabled,
    ensures
        domain_verdict(config, s, domain) is None,
        url_verdict(config, s, url) is None,
{
}

/// A domain that is neither listed nor (with subdomains allowed) below a
/// listed domain is refused exactly in strict mode.
pub proof fn lemma_unknown_domain(config: ValidationConfigView, s: Seq<DomainEntryView>, domain: Seq<char>)
    requires
        config.enabled,
        !has_domain(s, domain),
        forall|k: int| 0 <= k < s.len() ==> !is_subdomain_of(domain, #[trigger] s[k]),
    ensures
        domain_verdict(config, s, domain) is Some <==> config.strict_mode,
{
    assert forall|k: int| !is_first_parent(s, domain, k) by {
        if 0 <= k < s.len() {
            assert(!is_subdomain_of(domain, s[k]));
        }
    }
}

/// The sum of the counts of a table.
pub open spec fn table_sum<K>(t: Seq<(K, nat)>) -> nat
    decreases t.len(),
{
    if t.len() == 0 { 0 } else { table_sum(t.drop_last()) + t[t.len() - 1].1 }
}

proof fn lemma_table_sum_update<K>(t: Seq<(K, nat)>, i: int, p: (K, nat))
    requires
        0 <= i < t.len(),
    ensures
        table_sum(t.update(i, p)) == table_sum(t) - t[i].1 + p.1,
    decreases t.len(),
{
    let u = t.update(i, p);
    if i == t.len() - 1 {
        assert(u.drop_last() =~= t.drop_last());
    } else {
        assert(u.drop_last() =~= t.drop_last().update(i, p));
        lemma_table_sum_update(t.drop_last(), i, p);
    }
}

proof fn lemma_table_sum_push<K>(t: Seq<(K, nat)>, p: (K, nat))
    ensures
        table_sum(t.push(p)) == table_sum(t) + p.1,
{
    assert(t.push(p).drop_last() =~= t);
}

/// Tallying counts every key once: the counts add up to the number of keys.
pub proof fn lemma_tally_sum<K>(keys: Seq<K>)
    ensures
        table_sum(tally(keys)) == keys.len(),
    decreases keys.len(),
{
    if keys.len() > 0 {
        let d = keys.drop_last();
        let t = tally(d);
        let k = keys[keys.len() - 1];
        lemma_tally_sum(d);
        if exists|a: int| 0 <= a < t.len() && t[a].0 == k {
            let j = choose|a: int| 0 <= a < t.len() && t[a].0 == k;
            lemma_table_sum_update(t, j, (k, t[j].1 + 1));
        } else {
            lemma_table_sum_push(t, (k, 1nat));
        }
    }
}

/// The statistics account for every domain: enabled and disabled add up to
/// the total, and so do the per-category and per-trust-level counts.
pub proof fn lemma_stats_account_for_all(s: Seq<DomainEntryView>)
    ensures
        count_enabled(s) <= s.len(),
        table_sum(tally(s.map_values(|e: DomainEntryView| e.category))) == s.len(),
        table_sum(tally(s.map_values(|e: DomainEntryView| trust_bucket(e.trust_level)))) == s.len(),
    decreases s.len(),
{
    if s.len() > 0 {
        lemma_stats_account_for_all(s.drop_last());
    }
    lemma_tally_sum(s.map_values(|e: DomainEntryView| e.category));
    lemma_tally_sum(s.map_values(|e: DomainEntryView| trust_bucket(e.trust_level)));
}

/// The name `label.parent`: a subdomain of `parent`.
pub open spec fn dotted(label: Seq<char>, parent: Seq<char>) -> Seq<char> {
    label + "."@ + parent
}

/// A domain counts as a subdomain of an entry exactly when it is some name
/// followed by a dot and the entry's domain: `notgithub.com` is no subdomain
/// of `github.com`, `api.github.com` is.
pub proof fn lemma_subdomain_means_dotted_suffix(domain: Seq<char>, e: DomainEntryView)
    ensures
        is_subdomain_of(domain, e) <==> exists|label: Seq<char>| domain == #[trigger] dotted(label, e.domain),
{
    reveal_strlit(".");
    let suffix = "."@ + e.domain;
    if is_subdomain_of(domain, e) {
        let label = domain.subrange(0, domain.len() - suffix.len());
        let tail = domain.subrange(domain.len() - suffix.len(), domain.len() as int);
        assert(tail == suffix);
        assert(domain =~= label + tail);
        assert(dotted(label, e.domain) =~= label + suffix);
    }
    if exists|label: Seq<char>| domain == #[trigger] dotted(label, e.domain) {
        let label = choose|label: Seq<char>| domain == #[trigger] dotted(label, e.domain);
        assert(dotted(label, e.domain) =~= label + suffix);
        assert(domain.subrange(domain.len() - suffix.len(), domain.len() as int) =~= suffix);
    }
}

/// In strict mode a domain that is neither listed nor `something.` followed
/// by a listed domain is refused, with subdomains allowed or not.
pub proof fn lemma_strict_refuses_unlisted(config: ValidationConfigView, s: Seq<DomainEntryView>, domain: Seq<char>)
    requires
        config.enabled,
        config.strict_mode,
        forall|k: int| 0 <= k < s.len() ==> (#[trigger] s[k]).domain != domain,
        forall|k: int, label: Seq<char>| 0 <= k < s.len() ==> domain != #[trigger] dotted(label, (#[trigger] s[k]).domain),
    ensures
        domain_verdict(config, s, domain) == Some("Domain '"@ + domain + "' is not in the allowed list"@),
{
    assert(!has_domain(s, domain));
    assert forall|k: int| !is_first_parent(s, domain, k) by {
        if 0 <= k < s.len() {
            lemma_subdomain_means_dotted_suffix(domain, s[k]);
            if is_subdomain_of(domain, s[k]) {
                let label = choose|label: Seq<char>| domain == #[trigger] dotted(label, s[k].domain);
                assert(domain != dotted(label, s[k].domain));
            }
        }
    }
}

} // verus!
