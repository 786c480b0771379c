//! Per-download options: chunking, resume, extra request headers, a timeout
//! override, integrity verification and the expected size.
//!
//! The progress callback that a caller may attach is a closure; it is kept by
//! the caller beside these options.
use vstd::prelude::*;
use std::time::Duration;
use crate::text::{owned, str_eq};

verus! {

/// The headers as a map from name to value; a later entry for a name
/// replaces an earlier one.
pub open spec fn header_map(s: Seq<(String, String)>) -> Map<Seq<char>, Seq<char>>
    decreases s.len(),
{
    if s.len() == 0 {
        Map::empty()
    } else {
        header_map(s.drop_last()).insert(s.last().0@, s.last().1@)
    }
}

/// No header name occurs twice.
pub open spec fn names_distinct(s: Seq<(String, String)>) -> bool {
    forall|i: int, j: int| 0 <= i < j < s.len() ==> s[i].0@ != s[j].0@
}

/// Replacing the value of an entry whose name is `k` replaces `k` in the map.
proof fn lemma_update_entry(s: Seq<(String, String)>, i: int, p: (String, String))
    requires
        names_distinct(s),
        0 <= i < s.len(),
        s[i].0@ == p.0@,
    ensures
        header_map(s.update(i, p)) == header_map(s).insert(p.0@, p.1@),
    decreases s.len(),
{
    let u = s.update(i, p);
    if i == s.len() - 1 {
        assert(u.drop_last() =~= s.drop_last());
        assert(header_map(u) =~= header_map(s).insert(p.0@, p.1@));
    } else {
        let d = s.drop_last();
        assert(u.drop_last() =~= d.update(i, p));
        assert(names_distinct(d));
        lemma_update_entry(d, i, p);
        assert(s.last().0@ != p.0@);
        assert(header_map(u) =~= header_map(s).insert(p.0@, p.1@));
    }
}

/// A name that no entry has is not in the map.
proof fn lemma_absent_name(s: Seq<(String, String)>, k: Seq<char>)
    requires
        forall|i: int| 0 <= i < s.len() ==> s[i].0@ != k,
    ensures
        !header_map(s).contains_key(k),
    decreases s.len(),
{
    if s.len() > 0 {
        lemma_absent_name(s.drop_last(), k);
    }
}

/// Download options for customizing download behavior
#[derive(Debug, Clone)]
pub struct DownloadOptions {
    /// Maximum number of concurrent chunks
    pub max_concurrent_chunks: Option<usize>,
    /// Chunk size for downloads
    pub chunk_size: Option<u64>,
    /// Enable resume for interrupted downloads
    pub enable_resume: bool,
    /// Custom headers to include in requests, one entry per name
    pub custom_headers: Option<Vec<(String, String)>>,
    /// Override timeout for this specific download
    pub timeout_override: Option<Duration>,
    /// Verify file integrity after download
    pub verify_integrity: bool,
    /// Expected file size (for progress calculation)
    pub expected_size: Option<u64>,
}

impl DownloadOptions {
    /// The headers as a map; none at all when no header was set.
    pub open spec fn headers(&self) -> Option<Map<Seq<char>, Seq<char>>> {
        match self.custom_headers {
            Some(v) => Some(header_map(v@)),
            None => None,
        }
    }

    /// Every header name occurs once.
    pub open spec fn well_formed(&self) -> bool {
        match self.custom_headers {
            Some(v) => names_distinct(v@),
            None => true,
        }
    }

    /// The options with every field but `custom_headers` as in `other`.
    pub open spec fn same_but_headers(&self, other: &DownloadOptions) -> bool {
        &&& self.max_concurrent_chunks == other.max_concurrent_chunks
        &&& self.chunk_size == other.chunk_size
        &&& self.enable_resume == other.enable_resume
        &&& self.timeout_override == other.timeout_override
        &&& self.verify_integrity == other.verify_integrity
        &&& self.expected_size == other.expected_size
    }

    /// Create new download options with defaults
    pub fn new() -> (o: DownloadOptions)
        ensures
            o.max_concurrent_chunks is None,
            o.chunk_size is None,
            !o.enable_resume,
            o.custom_headers is None,
            o.timeout_override is None,
            !o.verify_integrity,
            o.expected_size is None,
            o.well_formed(),
    {
        DownloadOptions {
            max_concurrent_chunks: None,
            chunk_size: None,
            enable_resume: false,
            custom_headers: None,
            timeout_override: None,
            verify_integrity: false,
            expected_size: None,
        }
    }

    /// Set maximum concurrent chunks
    pub fn with_max_concurrent_chunks(self, chunks: usize) -> (o: DownloadOptions)
        ensures
            o == (DownloadOptions { max_concurrent_chunks: Some(chunks), ..self }),
    {
        DownloadOptions { max_concurrent_chunks: Some(chunks), ..self }
    }

    /// Set chunk size
    pub fn with_chunk_size(self, size: u64) -> (o: DownloadOptions)
        ensures
            o == (DownloadOptions { chunk_size: Some(size), ..self }),
    {
        DownloadOptions { chunk_size: Some(size), ..self }
    }

    /// Enable resume support
    pub fn with_resume(self, enable: bool) -> (o: DownloadOptions)
        ensures
            o == (DownloadOptions { enable_resume: enable, ..self }),
    {
        DownloadOptions { enable_resume: enable, ..self }
    }

    /// Add a custom header; a header of the same name is replaced.
    pub fn with_header(self, key: &str, value: &str) -> (o: DownloadOptions)
        requires
            self.well_formed(),
        ensures
            o.well_formed(),
            o.same_but_headers(&self),
            o.headers() == Some(
                match self.headers() {
                    Some(m) => m,
                    None => Map::<Seq<char>, Seq<char>>::empty(),
                }.insert(key@, value@),
            ),
    {
        let mut headers: Vec<(String, String)> = match self.custom_headers {
            Some(v) => v,
            None => Vec::new(),
        };
        proof {
            if self.custom_headers is None {
                assert(header_map(headers@) =~= Map::<Seq<char>, Seq<char>>::empty());
            }
        }
        let ghost before = headers@;
        let entry: (String, String) = (owned(key), owned(value));
        let mut i: usize = 0;
        let mut found = false;
        while i < headers.len()
            invariant_except_break
                !found,
            invariant
                i <= headers.len(),
                headers@ == before,
                forall|j: int| 0 <= j < i ==> before[j].0@ != key@,
            ensures
                headers@ == before,
                found ==> i < headers.len() && before[i as int].0@ == key@,
                !found ==> forall|j: int| 0 <= j < before.len() ==> before[j].0@ != key@,
            decreases headers.len() - i,
        {
            if str_eq(headers[i].0.as_str(), key) {
                found = true;
                break;
            }
            i = i + 1;
        }
        if found {
            proof {
                lemma_update_entry(before, i as int, entry);
            }
            headers.set(i, entry);
            assert(names_distinct(headers@)) by {
                assert forall|a: int, b: int| 0 <= a < b < headers@.len() implies headers@[a].0@
                    != headers@[b].0@ by {
                    if a != i as int && b != i as int {
                        assert(headers@[a] == before[a] && headers@[b] == before[b]);
                    }
                }
            }
        } else {
            proof {
                lemma_absent_name(before, key@);
            }
            headers.push(entry);
            assert(headers@.drop_last() =~= before);
        }
        DownloadOptions { custom_headers: Some(headers), ..self }
    }

    /// Set timeout override
    pub fn with_timeout(self, timeout: Duration) -> (o: DownloadOptions)
        ensures
            o == (DownloadOptions { timeout_override: Some(timeout), ..self }),
    {
        DownloadOptions { timeout_override: Some(timeout), ..self }
    }

    /// Enable integrity verification
    pub fn with_integrity_verification(self, enable: bool) -> (o: DownloadOptions)
        ensures
            o == (DownloadOptions { verify_integrity: enable, ..self }),
    {
        DownloadOptions { verify_integrity: enable, ..self }
    }

    /// Set expected file size
    pub fn with_expected_size(self, size: u64) -> (o: DownloadOptions)
        ensures
            o == (DownloadOptions { expected_size: Some(size), ..self }),
    {
        DownloadOptions { expected_size: Some(size), ..self }
    }
}

impl Default for DownloadOptions {
    fn default() -> (o: DownloadOptions)
        ensures
            o.max_concurrent_chunks is None,
            o.chunk_size is None,
            !o.enable_resume,
            o.custom_headers is None,
            o.timeout_override is None,
            !o.verify_integrity,
            o.expected_size is None,
    {
        DownloadOptions::new()
    }
}

} // verus!
