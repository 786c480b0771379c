//! The decisions of a repository download: what the compliance check is
//! asked about, what a cache lookup leads to, whether a file is fetched in
//! chunks, and the order in which the routed URLs are tried.
//!
//! Fetching, writing files and timing are I/O, done by the application,
//! which follows [`DownloadAttempts`] through the primary and fallback URLs.
use vstd::prelude::*;
use crate::cache::CacheLookup;
use crate::error::TurboCdnError;
use crate::text::{concat2, debug_escape, owned, push_debug_str, string_views};

verus! {

/// The text that names a repository file in compliance requests:
/// `repository@version/file_name`.
pub fn request_url(repository: &str, version: &str, file_name: &str) -> (u: String)
    ensures
        u@ == repository@ + "@"@ + version@ + "/"@ + file_name@,
{
    let mut u = concat2(repository, "@");
    u.append(version);
    u.append("/");
    u.append(file_name);
    u
}

/// A list of strings as `Debug` prints it: quoted, comma-separated, in
/// brackets.
pub open spec fn debug_list(items: Seq<Seq<char>>) -> Seq<char>
    decreases items.len(),
{
    if items.len() == 0 {
        "[]"@
    } else {
        debug_items(items) + "]"@
    }
}

/// `[` followed by the quoted items, comma-separated (no closing bracket).
pub open spec fn debug_items(items: Seq<Seq<char>>) -> Seq<char>
    decreases items.len(),
{
    if items.len() == 0 {
        "["@
    } else if items.len() == 1 {
        "[\""@ + debug_escape(items[0]) + "\""@
    } else {
        debug_items(items.drop_last()) + ", \""@ + debug_escape(items.last()) + "\""@
    }
}

/// The error for a request the compliance check did not approve: its
/// reasons, as `Debug` lists them.
pub fn not_approved_error(reasons: &Vec<String>) -> (e: TurboCdnError)
    ensures
        e matches TurboCdnError::Compliance { message }
            && message@ == "Download not approved: "@ + debug_list(string_views(reasons@)),
{
    let ghost views = string_views(reasons@);
    let mut m = owned("Download not approved: ");
    if reasons.len() == 0 {
        m.append("[]");
        return TurboCdnError::Compliance { message: m };
    }
    let ghost start = m@;
    let mut i: usize = 0;
    while i < reasons.len()
        invariant
            i <= reasons@.len(),
            views == string_views(reasons@),
            reasons@.len() > 0,
            i == 0 ==> m@ == start,
            i > 0 ==> m@ == start + debug_items(views.subrange(0, i as int)),
        decreases reasons.len() - i,
    {
        let ghost before = m@;
        if i == 0 {
            m.append("[\"");
        } else {
            m.append(", \"");
        }
        push_debug_str(&mut m, reasons[i].as_str());
        m.append("\"");
        proof {
            let sub = views.subrange(0, i + 1);
            assert(sub.drop_last() =~= views.subrange(0, i as int));
            assert(sub.last() == reasons@[i as int]@);
            if i == 0 {
                assert(sub.len() == 1);
                assert(m@ =~= start + debug_items(sub));
            } else {
                assert(m@ =~= start + debug_items(sub));
            }
        }
        i = i + 1;
    }
    m.append("]");
    proof {
        assert(views.subrange(0, reasons@.len() as int) =~= views);
    }
    TurboCdnError::Compliance { message: m }
}

/// What a cache lookup leads to.
#[derive(Debug, Clone, Copy, PartialEq, Eq, Structural)]
pub enum CacheAction {
    /// Serve the cached file
    UseCached,
    /// Drop the expired entry, then download
    RemoveAndDownload,
    /// Download
    Download,
}

/// The action a cache lookup leads to.
pub fn cache_action(lookup: &CacheLookup) -> (a: CacheAction)
    ensures
        lookup is Hit ==> a == CacheAction::UseCached,
        lookup is Expired ==> a == CacheAction::RemoveAndDownload,
        lookup is Miss ==> a == CacheAction::Download,
{
    match lookup {
        CacheLookup::Hit(_) => CacheAction::UseCached,
        CacheLookup::Expired(_) => CacheAction::RemoveAndDownload,
        CacheLookup::Miss => CacheAction::Download,
    }
}

/// Whether a file is fetched in chunks: it is larger than one chunk and the
/// server supports range requests.
pub fn use_chunks(file_size: u64, chunk_size: usize, supports_ranges: bool) -> (r: bool)
    ensures
        r == (file_size > chunk_size && supports_ranges),
{
    file_size > chunk_size as u64 && supports_ranges
}

/// Which list a URL to try comes from.
#[derive(Debug, Clone, Copy, PartialEq, Eq, Structural)]
pub enum UrlList {
    Primary,
    Fallback,
}

/// The attempts at a download: every primary URL in order, then every
/// fallback URL in order, until one succeeds. The last failure is kept.
#[derive(Debug)]
pub struct DownloadAttempts {
    primary: usize,
    fallback: usize,
    tried: usize,
    last_error: Option<TurboCdnError>,
}

/// The URL tried as attempt number `k`: primary URLs first, then fallback
/// ones; `None` once all have been tried.
pub open spec fn attempt_at(primary: nat, fallback: nat, k: nat) -> Option<(UrlList, nat)> {
    if k < primary {
        Some((UrlList::Primary, k))
    } else if k < primary + fallback {
        Some((UrlList::Fallback, (k - primary) as nat))
    } else {
        None
    }
}

/// Every URL is tried exactly once, the primary ones first and each list in
/// its order, and nothing is tried once all have been.
pub proof fn lemma_attempts_cover_every_url(primary: nat, fallback: nat)
    ensures
        forall|i: nat| i < primary ==> #[trigger] attempt_at(primary, fallback, i) == Some((UrlList::Primary, i)),
        forall|j: nat| j < fallback ==> #[trigger] attempt_at(primary, fallback, primary + j) == Some((UrlList::Fallback, j)),
        forall|k: nat| k >= primary + fallback ==> #[trigger] attempt_at(primary, fallback, k) is None,
        forall|k1: nat, k2: nat| k1 < k2 && attempt_at(primary, fallback, k1) is Some
            ==> #[trigger] attempt_at(primary, fallback, k1) != #[trigger] attempt_at(primary, fallback, k2),
{
}

impl DownloadAttempts {
    /// The URLs can be counted, and no more are tried than there are.
    #[verifier::type_invariant]
    spec fn well_formed(&self) -> bool {
        self.primary + self.fallback <= usize::MAX && self.tried <= self.primary + self.fallback
    }

    /// The number of primary URLs.
    pub closed spec fn primary_count(&self) -> nat {
        self.primary as nat
    }

    /// The number of fallback URLs.
    pub closed spec fn fallback_count(&self) -> nat {
        self.fallback as nat
    }

    /// How many URLs have been tried.
    pub closed spec fn tried_count(&self) -> nat {
        self.tried as nat
    }

    /// The last failure, if any.
    pub closed spec fn last_failure(&self) -> Option<TurboCdnError> {
        self.last_error
    }

    /// No URL tried yet among `primary` primary and `fallback` fallback URLs.
    pub fn new(primary: usize, fallback: usize) -> (a: DownloadAttempts)
        requires
            primary + fallback <= usize::MAX,
        ensures
            a.primary_count() == primary,
            a.fallback_count() == fallback,
            a.tried_count() == 0,
            a.last_failure() is None,
    {
        DownloadAttempts { primary, fallback, tried: 0, last_error: None }
    }

    /// The URL to try next, or `None` when every URL has been tried.
    pub fn next_url(&self) -> (r: Option<(UrlList, usize)>)
        ensures
            match attempt_at(self.primary_count(), self.fallback_count(), self.tried_count()) {
                Some((list, i)) => r == Some((list, i as usize)),
                None => r is None,
            },
    {
        proof { use_type_invariant(self); }
        if self.tried < self.primary {
            Some((UrlList::Primary, self.tried))
        } else if self.tried - self.primary < self.fallback {
            Some((UrlList::Fallback, self.tried - self.primary))
        } else {
            None
        }
    }

    /// Records that the URL last handed out failed with `error`.
    pub fn record_failure(&mut self, error: TurboCdnError)
        requires
            old(self).tried_count() < old(self).primary_count() + old(self).fallback_count(),
        ensures
            final(self).primary_count() == old(self).primary_count(),
            final(self).fallback_count() == old(self).fallback_count(),
            final(self).tried_count() == old(self).tried_count() + 1,
            final(self).last_failure() == Some(error),
    {
        proof { use_type_invariant(&*self); }
        self.tried = self.tried + 1;
        self.last_error = Some(error);
    }

    /// The error reported once every URL failed: the last failure, or a
    /// download error where no URL was tried.
    pub fn into_error(self) -> (e: TurboCdnError)
        ensures
            match self.last_failure() {
                Some(last) => e == last,
                None => e matches TurboCdnError::Download { message } && message@ == "All download attempts failed"@,
            },
    {
        match self.last_error {
            Some(e) => e,
            None => TurboCdnError::download("All download attempts failed"),
        }
    }
}

} // verus!
