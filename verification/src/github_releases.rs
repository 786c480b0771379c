//! Fetching GitHub release information, with jsDelivr as a fallback.
//!
//! The requests themselves are I/O and are made by the application; this
//! module decides what is asked (URLs, headers), how replies are judged
//! (statuses), which releases and versions are kept, and how a failure of
//! the GitHub API falls back to jsDelivr.
use vstd::prelude::*;
use std::time::Duration;
use crate::error::{TurboCdnError, error_text, is_status_error};
use crate::text::{concat2, owned, seq_contains, str_contains, string_views};
use crate::time::{duration_from_secs, duration_of_secs};

verus! {

/// GitHub API base URL
pub const GITHUB_API_BASE: &'static str = "https://api.github.com";

/// jsDelivr data API base URL
pub const JSDELIVR_DATA_API_BASE: &'static str = "https://data.jsdelivr.com/v1";

/// Maximum releases per page from the GitHub API
pub const GITHUB_PER_PAGE: u32 = 100;

/// Default timeout of API requests, in seconds
pub const API_TIMEOUT_SECS: u64 = 30;

/// Release information from GitHub
#[derive(Debug, Clone)]
pub struct ReleaseInfo {
    /// Release tag name (e.g., "v1.0.0")
    pub tag_name: String,
    /// Release name/title
    pub name: Option<String>,
    /// Whether this is a prerelease
    pub prerelease: bool,
    /// Whether this is a draft
    pub draft: bool,
    /// Publication date (ISO 8601 format)
    pub published_at: Option<String>,
    /// Release assets
    pub assets: Vec<AssetInfo>,
}

/// Asset information from a GitHub release
#[derive(Debug, Clone)]
pub struct AssetInfo {
    /// Asset file name
    pub name: String,
    /// File size in bytes
    pub size: u64,
    /// Direct download URL
    pub browser_download_url: String,
    /// Content type (MIME type)
    pub content_type: Option<String>,
    /// Download count
    pub download_count: u64,
}

/// Options for fetching releases
#[derive(Debug, Clone)]
pub struct FetchOptions {
    /// Include prerelease versions
    pub include_prereleases: bool,
    /// Include draft releases
    pub include_drafts: bool,
    /// Maximum number of versions to return (None = all)
    pub max_versions: Option<usize>,
    /// GitHub API token for higher rate limits
    pub github_token: Option<String>,
    /// Request timeout
    pub timeout: Duration,
}

impl Default for FetchOptions {
    fn default() -> (o: FetchOptions)
        ensures
            !o.include_prereleases,
            !o.include_drafts,
            o.max_versions is None,
            o.github_token is None,
            o.timeout == duration_of_secs(API_TIMEOUT_SECS),
    {
        FetchOptions {
            include_prereleases: false,
            include_drafts: false,
            max_versions: None,
            github_token: None,
            timeout: duration_from_secs(API_TIMEOUT_SECS),
        }
    }
}

impl FetchOptions {
    /// Create new fetch options with defaults
    pub fn new() -> (o: FetchOptions)
        ensures
            !o.include_prereleases,
            !o.include_drafts,
            o.max_versions is None,
            o.github_token is None,
            o.timeout == duration_of_secs(API_TIMEOUT_SECS),
    {
        FetchOptions::default()
    }

    /// Include prerelease versions
    pub fn with_prereleases(self, enabled: bool) -> (o: FetchOptions)
        ensures
            o == (FetchOptions { include_prereleases: enabled, ..self }),
    {
        FetchOptions { include_prereleases: enabled, ..self }
    }

    /// Include draft releases
    pub fn with_drafts(self, enabled: bool) -> (o: FetchOptions)
        ensures
            o == (FetchOptions { include_drafts: enabled, ..self }),
    {
        FetchOptions { include_drafts: enabled, ..self }
    }

    /// Limit the number of versions returned
    pub fn with_max_versions(self, max: usize) -> (o: FetchOptions)
        ensures
            o == (FetchOptions { max_versions: Some(max), ..self }),
    {
        FetchOptions { max_versions: Some(max), ..self }
    }

    /// Set GitHub API token
    pub fn with_github_token(self, token: &str) -> (o: FetchOptions)
        ensures
            o.github_token matches Some(t) && t@ == token@,
            o.include_prereleases == self.include_prereleases,
            o.include_drafts == self.include_drafts,
            o.max_versions == self.max_versions,
            o.timeout == self.timeout,
    {
        FetchOptions { github_token: Some(owned(token)), ..self }
    }

    /// Set request timeout
    pub fn with_timeout(self, timeout: Duration) -> (o: FetchOptions)
        ensures
            o == (FetchOptions { timeout, ..self }),
    {
        FetchOptions { timeout, ..self }
    }
}

/// Data source for version information
#[derive(Debug, Clone, Copy, PartialEq, Eq, Structural)]
pub enum DataSource {
    /// GitHub API (full release information)
    GitHub,
    /// jsDelivr CDN (version list only, fallback)
    JsDelivr,
}

impl DataSource {
    /// The text the source is displayed as.
    pub fn to_display_string(&self) -> (s: String)
        ensures
            *self == DataSource::GitHub ==> s@ == "GitHub API"@,
            *self == DataSource::JsDelivr ==> s@ == "jsDelivr CDN"@,
    {
        match self {
            DataSource::GitHub => owned("GitHub API"),
            DataSource::JsDelivr => owned("jsDelivr CDN"),
        }
    }
}

/// Result of fetching versions, including the data source
#[derive(Debug, Clone)]
pub struct VersionsResult {
    /// List of version tags
    pub versions: Vec<String>,
    /// Data source used
    pub source: DataSource,
}

/// Result of fetching releases, including the data source
#[derive(Debug, Clone)]
pub struct ReleasesResult {
    /// List of releases
    pub releases: Vec<ReleaseInfo>,
    /// Data source used
    pub source: DataSource,
}

// ---------------------------------------------------------------------------
// Selection rules
// ---------------------------------------------------------------------------

/// At most the first `n` items of `s`, or all of them when `n` is absent.
pub open spec fn take_at_most<A>(s: Seq<A>, n: Option<usize>) -> Seq<A> {
    match n {
        Some(m) => if m < s.len() { s.subrange(0, m as int) } else { s },
        None => s,
    }
}

/// Whether a release is kept under the options: drafts and prereleases only
/// where they are asked for.
pub open spec fn keeps_release(o: FetchOptions, r: ReleaseInfo) -> bool {
    (o.include_drafts || !r.draft) && (o.include_prereleases || !r.prerelease)
}

/// Whether a version text marks a prerelease.
pub open spec fn is_prerelease_text(v: Seq<char>) -> bool {
    seq_contains(v, "-alpha"@) || seq_contains(v, "-beta"@) || seq_contains(v, "-rc"@)
        || seq_contains(v, "-dev"@) || seq_contains(v, "-pre"@)
}

/// The release that stands for a tag that jsDelivr lists: only its tag is
/// known.
pub open spec fn is_tag_release(r: ReleaseInfo, tag: Seq<char>) -> bool {
    &&& r.tag_name@ == tag
    &&& r.name is None
    &&& !r.prerelease
    &&& !r.draft
    &&& r.published_at is None
    &&& r.assets@.len() == 0
}

/// GitHub releases fetcher with jsDelivr fallback
#[derive(Debug, Clone)]
pub struct GitHubReleasesFetcher {
    /// The options requests are made with
    pub options: FetchOptions,
}

impl Default for GitHubReleasesFetcher {
    fn default() -> (f: GitHubReleasesFetcher)
        ensures
            !f.options.include_prereleases,
            !f.options.include_drafts,
            f.options.max_versions is None,
            f.options.github_token is None,
            f.options.timeout == duration_of_secs(API_TIMEOUT_SECS),
    {
        GitHubReleasesFetcher::new()
    }
}

impl GitHubReleasesFetcher {
    /// A fetcher with the default options and no token. It does not read the
    /// environment: the application reads `GITHUB_TOKEN` and `GH_TOKEN` and
    /// passes them to [`Self::from_environment_tokens`].
    pub fn new() -> (f: GitHubReleasesFetcher)
        ensures
            !f.options.include_prereleases,
            !f.options.include_drafts,
            f.options.max_versions is None,
            f.options.github_token is None,
            f.options.timeout == duration_of_secs(API_TIMEOUT_SECS),
    {
        GitHubReleasesFetcher { options: FetchOptions::default() }
    }

    /// A fetcher with the default options and the token found in the
    /// environment: the value of `GITHUB_TOKEN` where it is set, else that of
    /// `GH_TOKEN`, else none.
    pub fn from_environment_tokens(github_token: Option<String>, gh_token: Option<String>) -> (f: GitHubReleasesFetcher)
        ensures
            !f.options.include_prereleases,
            !f.options.include_drafts,
            f.options.max_versions is None,
            f.options.github_token == (if github_token is Some { github_token } else { gh_token }),
            f.options.timeout == duration_of_secs(API_TIMEOUT_SECS),
    {
        let token = match github_token {
            Some(t) => Some(t),
            None => gh_token,
        };
        GitHubReleasesFetcher::new_with_token(token)
    }

    /// A fetcher with the default options and the given token.
    pub fn new_with_token(token: Option<String>) -> (f: GitHubReleasesFetcher)
        ensures
            !f.options.include_prereleases,
            !f.options.include_drafts,
            f.options.max_versions is None,
            f.options.github_token == token,
            f.options.timeout == duration_of_secs(API_TIMEOUT_SECS),
    {
        GitHubReleasesFetcher { options: FetchOptions { github_token: token, ..FetchOptions::default() } }
    }

    /// Create a new fetcher with custom options
    pub fn with_options(options: FetchOptions) -> (f: GitHubReleasesFetcher)
        ensures
            f.options == options,
    {
        GitHubReleasesFetcher { options }
    }

    /// The GitHub API URL that lists a repository's releases.
    pub fn releases_api_url(owner: &str, repo: &str) -> (u: String)
        ensures
            u@ == "https://api.github.com"@ + "/repos/"@ + owner@ + "/"@ + repo@ + "/releases?per_page=100"@,
    {
        let mut u = concat2(GITHUB_API_BASE, "/repos/");
        u.append(owner);
        u.append("/");
        u.append(repo);
        u.append("/releases?per_page=100");
        u
    }

    /// The releases URL that errors from the GitHub API name.
    pub fn releases_error_url(owner: &str, repo: &str) -> (u: String)
        ensures
            u@ == "https://api.github.com"@ + "/repos/"@ + owner@ + "/"@ + repo@ + "/releases"@,
    {
        let mut u = concat2(GITHUB_API_BASE, "/repos/");
        u.append(owner);
        u.append("/");
        u.append(repo);
        u.append("/releases");
        u
    }

    /// The jsDelivr data API URL that lists a GitHub repository's versions.
    pub fn jsdelivr_versions_url(owner: &str, repo: &str) -> (u: String)
        ensures
            u@ == "https://data.jsdelivr.com/v1"@ + "/package/gh/"@ + owner@ + "/"@ + repo@,
    {
        let mut u = concat2(JSDELIVR_DATA_API_BASE, "/package/gh/");
        u.append(owner);
        u.append("/");
        u.append(repo);
        u
    }

    /// The `Authorization` header value, where a token is configured.
    pub fn authorization_header(&self) -> (h: Option<String>)
        ensures
            match self.options.github_token {
                Some(t) => h matches Some(v) && v@ == "Bearer "@ + t@,
                None => h is None,
            },
    {
        match &self.options.github_token {
            Some(t) => Some(concat2("Bearer ", t.as_str())),
            None => None,
        }
    }

    /// Judges the status of a GitHub API reply: 403 and 429 mean the rate
    /// limit was hit (the remaining quota is reported where the reply
    /// states it), other statuses outside 200..=299 are HTTP errors.
    pub fn check_github_status(status: u16, rate_limit_remaining: Option<&str>, owner: &str, repo: &str) -> (r: Result<(), TurboCdnError>)
        ensures
            (status == 403 || status == 429) ==> (r matches Err(TurboCdnError::RateLimit { message })
                && message@ == "GitHub API rate limited (remaining: "@ + (match rate_limit_remaining {
                    Some(x) => x@,
                    None => "unknown"@,
                }) + ")"@),
            (status != 403 && status != 429 && !(200 <= status <= 299)) ==> (r matches Err(e)
                && is_status_error(e, status, "https://api.github.com"@ + "/repos/"@ + owner@ + "/"@ + repo@ + "/releases"@)),
            (200 <= status <= 299) ==> r is Ok,
    {
        if status == 403 || status == 429 {
            let mut message = owned("GitHub API rate limited (remaining: ");
            match rate_limit_remaining {
                Some(x) => message.append(x),
                None => message.append("unknown"),
            }
            message.append(")");
            return Err(TurboCdnError::RateLimit { message });
        }
        if !(200 <= status && status <= 299) {
            let url = GitHubReleasesFetcher::releases_error_url(owner, repo);
            return Err(TurboCdnError::from_status_code(status, url.as_str()));
        }
        Ok(())
    }

    /// Judges the status of a jsDelivr reply: statuses outside 200..=299
    /// are HTTP errors for the requested URL.
    pub fn check_jsdelivr_status(status: u16, url: &str) -> (r: Result<(), TurboCdnError>)
        ensures
            (200 <= status <= 299) ==> r is Ok,
            !(200 <= status <= 299) ==> (r matches Err(e) && is_status_error(e, status, url@)),
    {
        if !(200 <= status && status <= 299) {
            return Err(TurboCdnError::from_status_code(status, url));
        }
        Ok(())
    }

    /// The releases kept under the options, in their order: drafts and
    /// prereleases only where asked for, then at most `max_versions`.
    pub fn select_releases(&self, releases: Vec<ReleaseInfo>) -> (r: Vec<ReleaseInfo>)
        ensures
            r@ == take_at_most(releases@.filter(|x: ReleaseInfo| keeps_release(self.options, x)), self.options.max_versions),
    {
        let ghost input = releases@;
        let ghost pred = |x: ReleaseInfo| keeps_release(self.options, x);
        let mut rest = releases;
        let mut kept: Vec<ReleaseInfo> = Vec::new();
        let ghost mut i: int = 0;
        assert(input.subrange(0, 0).filter(pred) =~= Seq::<ReleaseInfo>::empty()) by { reveal(Seq::filter); }
        assert(input.subrange(0, input.len() as int) =~= input);
        while rest.len() > 0
            invariant
                0 <= i <= input.len(),
                rest@ == input.subrange(i, input.len() as int),
                kept@ == input.subrange(0, i).filter(pred),
                pred == (|x: ReleaseInfo| keeps_release(self.options, x)),
            decreases rest.len(),
        {
            let x = rest.remove(0);
            proof {
                assert(input.subrange(0, i + 1).drop_last() =~= input.subrange(0, i));
                assert(input.subrange(0, i + 1).last() == x);
                assert(rest@ =~= input.subrange(i + 1, input.len() as int));
            }
            let ghost gx = x;
            if (self.options.include_drafts || !x.draft) && (self.options.include_prereleases || !x.prerelease) {
                kept.push(x);
            }
            proof {
                let s1 = input.subrange(0, i + 1);
                reveal(Seq::filter);
                assert(s1.filter(pred) == (if pred(s1.last()) {
                    s1.drop_last().filter(pred).push(s1.last())
                } else {
                    s1.drop_last().filter(pred)
                }));
                assert(pred(gx) == keeps_release(self.options, gx));
                i = i + 1;
            }
        }
        assert(input.subrange(0, input.len() as int) =~= input);
        match self.options.max_versions {
            Some(max) => kept.truncate(max),
            None => {},
        }
        kept
    }

    /// The versions jsDelivr listed that are kept under the options:
    /// prerelease versions only where asked for, then at most
    /// `max_versions`.
    pub fn select_jsdelivr_versions(&self, versions: Vec<String>) -> (r: Vec<String>)
        ensures
            r@ == take_at_most(
                if self.options.include_prereleases {
                    versions@
                } else {
                    versions@.filter(|v: String| !is_prerelease_text(v@))
                },
                self.options.max_versions,
            ),
    {
        let mut kept: Vec<String> = Vec::new();
        if self.options.include_prereleases {
            kept = versions;
        } else {
            let ghost input = versions@;
            let ghost pred = |v: String| !is_prerelease_text(v@);
            let mut rest = versions;
            let ghost mut i: int = 0;
            assert(input.subrange(0, 0).filter(pred) =~= Seq::<String>::empty()) by { reveal(Seq::filter); }
            assert(input.subrange(0, input.len() as int) =~= input);
            while rest.len() > 0
                invariant
                    0 <= i <= input.len(),
                    rest@ == input.subrange(i, input.len() as int),
                    kept@ == input.subrange(0, i).filter(pred),
                    pred == (|v: String| !is_prerelease_text(v@)),
                decreases rest.len(),
            {
                let v = rest.remove(0);
                proof {
                    assert(input.subrange(0, i + 1).drop_last() =~= input.subrange(0, i));
                    assert(input.subrange(0, i + 1).last() == v);
                    assert(rest@ =~= input.subrange(i + 1, input.len() as int));
                }
                let s = v.as_str();
                let pre = str_contains(s, "-alpha") || str_contains(s, "-beta") || str_contains(s, "-rc")
                    || str_contains(s, "-dev") || str_contains(s, "-pre");
                let ghost gv = v;
                if !pre {
                    kept.push(v);
                }
                proof {
                    let s1 = input.subrange(0, i + 1);
                    reveal(Seq::filter);
                    assert(s1.filter(pred) == (if pred(s1.last()) {
                        s1.drop_last().filter(pred).push(s1.last())
                    } else {
                        s1.drop_last().filter(pred)
                    }));
                    assert(pred(gv) == !is_prerelease_text(gv@));
                    i = i + 1;
                }
            }
            assert(input.subrange(0, input.len() as int) =~= input);
        }
        match self.options.max_versions {
            Some(max) => kept.truncate(max),
            None => {},
        }
        kept
    }

    /// The tags of releases, in their order.
    pub fn release_tags(releases: Vec<ReleaseInfo>) -> (tags: Vec<String>)
        ensures
            tags@ == releases@.map_values(|r: ReleaseInfo| r.tag_name),
    {
        let ghost input = releases@;
        let mut rest = releases;
        let mut tags: Vec<String> = Vec::new();
        let ghost mut i: int = 0;
        while rest.len() > 0
            invariant
                0 <= i <= input.len(),
                rest@ == input.subrange(i, input.len() as int),
                tags@ == input.subrange(0, i).map_values(|r: ReleaseInfo| r.tag_name),
            decreases rest.len(),
        {
            let r = rest.remove(0);
            proof {
                assert(rest@ =~= input.subrange(i + 1, input.len() as int));
            }
            tags.push(r.tag_name);
            proof {
                i = i + 1;
                assert(tags@ =~= input.subrange(0, i).map_values(|r: ReleaseInfo| r.tag_name));
            }
        }
        assert(input.subrange(0, input.len() as int) =~= input);
        tags
    }

    /// The release that stands for a tag jsDelivr lists.
    pub fn tag_release(tag: String) -> (r: ReleaseInfo)
        ensures
            is_tag_release(r, tag@),
    {
        ReleaseInfo { tag_name: tag, name: None, prerelease: false, draft: false, published_at: None, assets: Vec::new() }
    }

    /// The releases that stand for the tags jsDelivr lists, in their order.
    pub fn tag_releases(tags: Vec<String>) -> (rs: Vec<ReleaseInfo>)
        ensures
            rs@.len() == tags@.len(),
            forall|k: int| 0 <= k < tags@.len() ==> is_tag_release(#[trigger] rs@[k], tags@[k]@),
    {
        let ghost input = tags@;
        let mut rest = tags;
        let mut rs: Vec<ReleaseInfo> = Vec::new();
        let ghost mut i: int = 0;
        while rest.len() > 0
            invariant
                0 <= i <= input.len(),
                rest@ == input.subrange(i, input.len() as int),
                rs@.len() == i,
                forall|k: int| 0 <= k < i ==> is_tag_release(#[trigger] rs@[k], input[k]@),
            decreases rest.len(),
        {
            let t = rest.remove(0);
            proof {
                assert(rest@ =~= input.subrange(i + 1, input.len() as int));
                assert(t == input[i]);
            }
            rs.push(GitHubReleasesFetcher::tag_release(t));
            proof { i = i + 1; }
        }
        rs
    }

    /// Versions fetched from the GitHub API.
    pub fn versions_from_github(versions: Vec<String>) -> (r: VersionsResult)
        ensures
            r.versions@ == versions@,
            r.source == DataSource::GitHub,
    {
        VersionsResult { versions, source: DataSource::GitHub }
    }

    /// Releases fetched from the GitHub API.
    pub fn releases_from_github(releases: Vec<ReleaseInfo>) -> (r: ReleasesResult)
        ensures
            r.releases@ == releases@,
            r.source == DataSource::GitHub,
    {
        ReleasesResult { releases, source: DataSource::GitHub }
    }

    /// The outcome of fetching versions once the GitHub API has failed with
    /// `github_err` and jsDelivr has answered with `jsdelivr`: jsDelivr's
    /// versions, or an error that reports both failures.
    pub fn versions_after_github_failure(
        owner: &str,
        repo: &str,
        github_err: &TurboCdnError,
        jsdelivr: Result<Vec<String>, TurboCdnError>,
    ) -> (r: Result<VersionsResult, TurboCdnError>)
        ensures
            match jsdelivr {
                Ok(vs) => r matches Ok(res) && res.versions@ == vs@ && res.source == DataSource::JsDelivr,
                Err(je) => r matches Err(TurboCdnError::Download { message })
                    && message@ == "Failed to fetch versions for "@ + owner@ + "/"@ + repo@
                        + ": GitHub error: "@ + error_text(*github_err) + "; jsDelivr error: "@ + error_text(je),
            },
    {
        match jsdelivr {
            Ok(versions) => Ok(VersionsResult { versions, source: DataSource::JsDelivr }),
            Err(je) => {
                let message = both_failed_message("Failed to fetch versions for ", owner, repo, github_err, &je);
                Err(TurboCdnError::Download { message })
            },
        }
    }

    /// The outcome of listing releases once the GitHub API has failed with
    /// `github_err` and jsDelivr has answered with `jsdelivr`: one release
    /// per jsDelivr tag, or an error that reports both failures.
    pub fn releases_after_github_failure(
        owner: &str,
        repo: &str,
        github_err: &TurboCdnError,
        jsdelivr: Result<Vec<String>, TurboCdnError>,
    ) -> (r: Result<ReleasesResult, TurboCdnError>)
        ensures
            match jsdelivr {
                Ok(tags) => r matches Ok(res) && res.source == DataSource::JsDelivr
                    && res.releases@.len() == tags@.len()
                    && forall|k: int| 0 <= k < tags@.len() ==> is_tag_release(#[trigger] res.releases@[k], tags@[k]@),
                Err(je) => r matches Err(TurboCdnError::Download { message })
                    && message@ == "Failed to fetch releases for "@ + owner@ + "/"@ + repo@
                        + ": GitHub error: "@ + error_text(*github_err) + "; jsDelivr error: "@ + error_text(je),
            },
    {
        match jsdelivr {
            Ok(tags) => Ok(ReleasesResult { releases: GitHubReleasesFetcher::tag_releases(tags), source: DataSource::JsDelivr }),
            Err(je) => {
                let message = both_failed_message("Failed to fetch releases for ", owner, repo, github_err, &je);
                Err(TurboCdnError::Download { message })
            },
        }
    }

    /// The latest version: the first one listed, or an error where none is.
    pub fn latest_version(owner: &str, repo: &str, versions: Vec<String>) -> (r: Result<String, TurboCdnError>)
        ensures
            versions@.len() > 0 ==> (r matches Ok(v) && v == versions@[0]),
            versions@.len() == 0 ==> (r matches Err(TurboCdnError::Download { message })
                && message@ == "No releases found for "@ + owner@ + "/"@ + repo@),
    {
        let mut versions = versions;
        if versions.len() > 0 {
            Ok(versions.remove(0))
        } else {
            let mut message = concat2("No releases found for ", owner);
            message.append("/");
            message.append(repo);
            Err(TurboCdnError::Download { message })
        }
    }
}

/// "`prefix`owner/repo: GitHub error: …; jsDelivr error: …"
fn both_failed_message(prefix: &str, owner: &str, repo: &str, github_err: &TurboCdnError, jsdelivr_err: &TurboCdnError) -> (m: String)
    ensures
        m@ == prefix@ + owner@ + "/"@ + repo@ + ": GitHub error: "@ + error_text(*github_err)
            + "; jsDelivr error: "@ + error_text(*jsdelivr_err),
{
    let g = github_err.to_message();
    let j = jsdelivr_err.to_message();
    let mut m = concat2(prefix, owner);
    m.append("/");
    m.append(repo);
    m.append(": GitHub error: ");
    m.append(g.as_str());
    m.append("; jsDelivr error: ");
    m.append(j.as_str());
    m
}

} // verus!
