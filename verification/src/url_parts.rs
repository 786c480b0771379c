//! URLs as the `url` crate parses them: the parts of a URL that the library
//! reads (its domain name and its path), and the file name a download of a
//! URL is saved under.
use vstd::prelude::*;
use crate::error::TurboCdnError;
use crate::text::{chars_of, concat2, owned, string_from_range};

verus! {

/// The parts of a parsed URL the library reads.
#[derive(Debug, Clone)]
pub struct UrlParts {
    /// The host's domain name; absent for IP hosts and hostless URLs
    pub domain: Option<String>,
    /// The path
    pub path: String,
}

/// The outcome of parsing `url` with `url::Url::parse`: the text of the
/// parse error, or the URL's domain name (`Url::domain`) and path
/// (`Url::path`).
pub uninterp spec fn url_parse_outcome(url: Seq<char>) -> Result<(Option<Seq<char>>, Seq<char>), Seq<char>>;

/// The view of an optional string.
pub open spec fn opt_view(o: Option<String>) -> Option<Seq<char>> {
    match o {
        Some(s) => Some(s@),
        None => None,
    }
}

/// `url::Url::parse`, read through `Url::domain` and `Url::path`, with the
/// parse error as its display text. The contract only ties the result to
/// the name `url_parse_outcome`; what a URL parses to is not stated.
#[verifier::external_body]
pub(crate) fn parse_url(url: &str) -> (r: Result<UrlParts, String>)
    ensures
        match r {
            Ok(p) => url_parse_outcome(url@) == Ok::<(Option<Seq<char>>, Seq<char>), Seq<char>>((opt_view(p.domain), p.path@)),
            Err(e) => url_parse_outcome(url@) == Err::<(Option<Seq<char>>, Seq<char>), Seq<char>>(e@),
        },
{
    match url::Url::parse(url) {
        Ok(parsed) => Ok(UrlParts { domain: parsed.domain().map(|d| d.to_string()), path: parsed.path().to_string() }),
        Err(e) => Err(e.to_string()),
    }
}

/// The outcome of parsing `url` as far as its domain name goes.
pub open spec fn url_domain_outcome(url: Seq<char>) -> Result<Option<Seq<char>>, Seq<char>> {
    match url_parse_outcome(url) {
        Ok(parts) => Ok(parts.0),
        Err(e) => Err(e),
    }
}

/// Parses `url` and returns its domain name, or the parse error's text.
pub fn parse_url_domain(url: &str) -> (r: Result<Option<String>, String>)
    ensures
        match r {
            Ok(Some(d)) => url_domain_outcome(url@) == Ok::<Option<Seq<char>>, Seq<char>>(Some(d@)),
            Ok(None) => url_domain_outcome(url@) == Ok::<Option<Seq<char>>, Seq<char>>(None),
            Err(e) => url_domain_outcome(url@) == Err::<Option<Seq<char>>, Seq<char>>(e@),
        },
{
    match parse_url(url) {
        Ok(parts) => Ok(parts.domain),
        Err(e) => Err(e),
    }
}

/// The last `/`-separated segment of a path (all of it where it has no
/// `/`).
pub open spec fn last_segment(path: Seq<char>) -> Seq<char> {
    if exists|i: int| 0 <= i < path.len() && path[i] == '/' {
        let i = choose|i: int| 0 <= i < path.len() && path[i] == '/' && forall|j: int| i < j < path.len() ==> path[j] != '/';
        path.subrange(i + 1, path.len() as int)
    } else {
        path
    }
}

/// The file name a download of a URL with this path is saved under: the
/// path's last segment, or `download` where that is empty.
pub open spec fn file_name_of_path(path: Seq<char>) -> Seq<char> {
    let name = last_segment(path);
    if name.len() == 0 || name == "/"@ { "download"@ } else { name }
}

/// Extract the file name from a URL: the last segment of its path, or
/// `download` where that is empty. A URL that does not parse is a
/// configuration error.
pub fn extract_filename_from_url(url: &str) -> (r: Result<String, TurboCdnError>)
    ensures
        match url_parse_outcome(url@) {
            Ok(parts) => r matches Ok(name) && name@ == file_name_of_path(parts.1),
            Err(e) => r matches Err(TurboCdnError::Config { message }) && message@ == "Invalid URL: "@ + e,
        },
{
    match parse_url(url) {
        Err(e) => Err(TurboCdnError::Config { message: concat2("Invalid URL: ", e.as_str()) }),
        Ok(parts) => {
            let v = chars_of(parts.path.as_str());
            let n = v.len();
            let mut k: usize = n;
            while k > 0
                invariant
                    k <= n,
                    n == v@.len(),
                    forall|j: int| k <= j < n ==> v@[j] != '/',
                ensures
                    k <= n,
                    forall|j: int| k <= j < n ==> v@[j] != '/',
                    k == 0 || v@[k - 1] == '/',
                decreases k,
            {
                if v[k - 1] == '/' {
                    break;
                }
                k = k - 1;
            }
            let name = string_from_range(&v, k, n);
            proof {
                if k > 0 {
                    assert(v@[k - 1] == '/');
                    let c = choose|i: int| 0 <= i < v@.len() && v@[i] == '/' && forall|j: int| i < j < v@.len() ==> v@[j] != '/';
                    assert(c == k - 1) by {
                        if c < k - 1 {
                            assert(v@[k - 1] != '/');
                        } else if c > k - 1 {
                            assert(v@[c] != '/');
                        }
                    }
                } else {
                    assert(!(exists|i: int| 0 <= i < v@.len() && v@[i] == '/'));
                    assert(v@.subrange(0, n as int) =~= v@);
                }
            }
            if name.as_str().unicode_len() == 0 || crate::text::str_eq(name.as_str(), "/") {
                Ok(owned("download"))
            } else {
                Ok(name)
            }
        },
    }
}

} // verus!
