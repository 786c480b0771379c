//! The download cache: its index of entries, lookups with expiry, storing
//! with optional gzip compression and SHA-256 checksums, least-recently-used
//! eviction under a size budget, and cleanup.
//!
//! The index is held in memory here. Files are read, written and deleted by
//! the application: operations that drop entries return them, so that their
//! files can be deleted, and reading an entry takes the bytes of its file.
//! Times are milliseconds since the Unix epoch, durations milliseconds.
use vstd::prelude::*;
use crate::config::sections::CacheConfig;
use crate::config::sections::{has_verbatim_prefix, join_path};
use crate::error::TurboCdnError;
use crate::text::{concat2, owned, seq_ends_with, str_eq};
use sha2::Digest;
use std::io::{Read, Write};

verus! {

// ---------------------------------------------------------------------------
// Outside computations: SHA-256 and gzip
// ---------------------------------------------------------------------------

/// The lowercase hexadecimal SHA-256 digest of `data`, as `sha2::Sha256`
/// computes it and `{:x}` prints it.
pub uninterp spec fn sha256_hex(data: Seq<u8>) -> Seq<char>;

/// The gzip stream that `flate2::write::GzEncoder` with the default
/// compression level makes of `data`, or `None` where encoding fails.
pub uninterp spec fn gzip_outcome(data: Seq<u8>) -> Option<Seq<u8>>;

/// What `flate2::read::GzDecoder` decodes from `data`, or `None` where it
/// fails.
pub uninterp spec fn gunzip_of(data: Seq<u8>) -> Option<Seq<u8>>;

/// `sha2::Sha256::digest`, printed in lowercase hexadecimal: 64 digits,
/// determined by `data`.
#[verifier::external_body]
fn sha256_hex_digest(data: &[u8]) -> (hex: String)
    ensures
        hex@ == sha256_hex(data@),
        hex@.len() == 64,
{
    format!("{:x}", sha2::Sha256::digest(data))
}

/// `flate2::write::GzEncoder` at the default level: the gzip stream of
/// `data`, which `GzDecoder` decodes back to `data`. It fails exactly where
/// the encoder does (`gzip_outcome` is `None`).
#[verifier::external_body]
fn gzip_encode(data: &[u8]) -> (r: Result<Vec<u8>, String>)
    ensures
        r is Ok <==> gzip_outcome(data@) is Some,
        r matches Ok(v) ==> gzip_outcome(data@) == Some(v@) && gunzip_of(v@) == Some(data@),
{
    let mut encoder = flate2::write::GzEncoder::new(Vec::new(), flate2::Compression::default());
    encoder.write_all(data).map_err(|e| e.to_string())?;
    encoder.finish().map_err(|e| e.to_string())
}

/// `flate2::read::GzDecoder`: the data that the gzip stream `data` decodes
/// to; it fails exactly where the stream cannot be decoded.
#[verifier::external_body]
fn gzip_decode(data: &[u8]) -> (r: Result<Vec<u8>, String>)
    ensures
        r is Ok <==> gunzip_of(data@) is Some,
        r matches Ok(v) ==> gunzip_of(data@) == Some(v@),
{
    let mut decoder = flate2::read::GzDecoder::new(data);
    let mut decompressed = Vec::new();
    decoder.read_to_end(&mut decompressed).map_err(|e| e.to_string())?;
    Ok(decompressed)
}

// ---------------------------------------------------------------------------
// Entries
// ---------------------------------------------------------------------------

/// Cache entry metadata
#[derive(Debug)]
pub struct CacheEntry {
    /// Unique cache key
    pub key: String,
    /// File path in cache
    pub file_path: String,
    /// Original URL
    pub original_url: String,
    /// File size in bytes
    pub file_size: u64,
    /// File checksum (SHA-256)
    pub checksum: Option<String>,
    /// Content type
    pub content_type: Option<String>,
    /// Creation time
    pub created_at: u64,
    /// Last access time
    pub last_accessed: u64,
    /// Access count
    pub access_count: u64,
    /// Whether the file is compressed
    pub compressed: bool,
    /// Time to live
    pub ttl: u64,
}

/// An optional string with the same text as another.
fn copy_opt(o: &Option<String>) -> (r: Option<String>)
    ensures
        r is Some <==> o is Some,
        r matches Some(s) ==> s@ == o->Some_0@,
{
    match o {
        Some(s) => Some(owned(s.as_str())),
        None => None,
    }
}

/// Two entries agree on everything but the identity of their strings.
pub open spec fn same_entry(a: CacheEntry, b: CacheEntry) -> bool {
    &&& a.key@ == b.key@
    &&& a.file_path@ == b.file_path@
    &&& a.original_url@ == b.original_url@
    &&& a.file_size == b.file_size
    &&& (a.checksum is Some <==> b.checksum is Some)
    &&& (a.checksum matches Some(x) ==> x@ == b.checksum->Some_0@)
    &&& (a.content_type is Some <==> b.content_type is Some)
    &&& (a.content_type matches Some(x) ==> x@ == b.content_type->Some_0@)
    &&& a.created_at == b.created_at
    &&& a.last_accessed == b.last_accessed
    &&& a.access_count == b.access_count
    &&& a.compressed == b.compressed
    &&& a.ttl == b.ttl
}

impl CacheEntry {
    /// A copy of the entry.
    pub fn duplicate(&self) -> (c: CacheEntry)
        ensures
            same_entry(c, *self),
    {
        CacheEntry {
            key: owned(self.key.as_str()),
            file_path: owned(self.file_path.as_str()),
            original_url: owned(self.original_url.as_str()),
            file_size: self.file_size,
            checksum: copy_opt(&self.checksum),
            content_type: copy_opt(&self.content_type),
            created_at: self.created_at,
            last_accessed: self.last_accessed,
            access_count: self.access_count,
            compressed: self.compressed,
            ttl: self.ttl,
        }
    }
}

/// Whether an entry has expired at time `now`: its age exceeds its TTL, or
/// it was created after `now` (its age cannot be told).
pub open spec fn entry_expired(e: CacheEntry, now: u64) -> bool {
    now < e.created_at || now - e.created_at > e.ttl
}

/// The total size of a list of entries.
pub open spec fn sizes_sum(s: Seq<CacheEntry>) -> nat
    decreases s.len(),
{
    if s.len() == 0 {
        0
    } else {
        sizes_sum(s.drop_last()) + s.last().file_size as nat
    }
}

/// No two entries share a key.
pub open spec fn keys_distinct(s: Seq<CacheEntry>) -> bool {
    forall|i: int, j: int| 0 <= i < s.len() && 0 <= j < s.len() && i != j ==> (#[trigger] s[i]).key@ != (#[trigger] s[j]).key@
}

/// Whether some entry has key `key`.
pub open spec fn has_key(s: Seq<CacheEntry>, key: Seq<char>) -> bool {
    exists|i: int| 0 <= i < s.len() && (#[trigger] s[i]).key@ == key
}

proof fn lemma_sum_push(s: Seq<CacheEntry>, e: CacheEntry)
    ensures
        sizes_sum(s.push(e)) == sizes_sum(s) + e.file_size,
{
    assert(s.push(e).drop_last() =~= s);
}

proof fn lemma_sum_remove(s: Seq<CacheEntry>, i: int)
    requires
        0 <= i < s.len(),
    ensures
        sizes_sum(s.remove(i)) + s[i].file_size == sizes_sum(s),
    decreases s.len(),
{
    if i == s.len() - 1 {
        assert(s.remove(i) =~= s.drop_last());
    } else {
        lemma_sum_remove(s.drop_last(), i);
        assert(s.remove(i).drop_last() =~= s.drop_last().remove(i));
        assert(s.remove(i).last() == s.last());
    }
}

proof fn lemma_sum_update(s: Seq<CacheEntry>, i: int, e: CacheEntry)
    requires
        0 <= i < s.len(),
    ensures
        sizes_sum(s.update(i, e)) + s[i].file_size == sizes_sum(s) + e.file_size,
    decreases s.len(),
{
    if i == s.len() - 1 {
        assert(s.update(i, e).drop_last() =~= s.drop_last());
    } else {
        lemma_sum_update(s.drop_last(), i, e);
        assert(s.update(i, e).drop_last() =~= s.drop_last().update(i, e));
    }
}

proof fn lemma_sum_concat(a: Seq<CacheEntry>, b: Seq<CacheEntry>)
    ensures
        sizes_sum(a + b) == sizes_sum(a) + sizes_sum(b),
    decreases b.len(),
{
    if b.len() == 0 {
        assert(a + b =~= a);
    } else {
        lemma_sum_concat(a, b.drop_last());
        assert((a + b).drop_last() =~= a + b.drop_last());
    }
}

proof fn lemma_distinct_remove(s: Seq<CacheEntry>, i: int)
    requires
        0 <= i < s.len(),
        keys_distinct(s),
    ensures
        keys_distinct(s.remove(i)),
        forall|j: int| 0 <= j < s.remove(i).len() ==> (#[trigger] s.remove(i)[j]).key@ != s[i].key@,
{
    let r = s.remove(i);
    assert forall|a: int, b: int| 0 <= a < r.len() && 0 <= b < r.len() && a != b implies (#[trigger] r[a]).key@ != (#[trigger] r[b]).key@ by {
        let sa = if a < i { a } else { a + 1 };
        let sb = if b < i { b } else { b + 1 };
        assert(r[a] == s[sa] && r[b] == s[sb]);
    }
    assert forall|j: int| 0 <= j < r.len() implies (#[trigger] r[j]).key@ != s[i].key@ by {
        let sj = if j < i { j } else { j + 1 };
        assert(r[j] == s[sj]);
    }
}

// ---------------------------------------------------------------------------
// The index of entries
// ---------------------------------------------------------------------------

/// Cache metadata store: the entries of the cache, at most one per key.
#[derive(Debug)]
pub struct MetadataStore {
    cache_dir: String,
    entries: Vec<CacheEntry>,
}

impl MetadataStore {
    /// Keys are distinct and the total size fits in 64 bits.
    #[verifier::type_invariant]
    spec fn well_formed(&self) -> bool {
        keys_distinct(self.entries@) && sizes_sum(self.entries@) <= u64::MAX
    }

    /// The entries, in the order they were added.
    pub closed spec fn entries(&self) -> Seq<CacheEntry> {
        self.entries@
    }

    /// The cache directory.
    pub closed spec fn dir(&self) -> Seq<char> {
        self.cache_dir@
    }

    /// An empty store for a disabled cache.
    pub fn disabled() -> (s: MetadataStore)
        ensures
            s.entries().len() == 0,
            s.dir().len() == 0,
    {
        MetadataStore { cache_dir: String::new(), entries: Vec::new() }
    }

    /// An empty store for the cache in `cache_dir`.
    pub fn new(cache_dir: &str) -> (s: MetadataStore)
        ensures
            s.entries().len() == 0,
            s.dir() == cache_dir@,
    {
        MetadataStore { cache_dir: owned(cache_dir), entries: Vec::new() }
    }

    /// The cache directory.
    pub fn cache_dir(&self) -> (d: &str)
        ensures
            d@ == self.dir(),
    {
        self.cache_dir.as_str()
    }

    /// The number of entries.
    pub fn len(&self) -> (n: usize)
        ensures
            n == self.entries().len(),
    {
        self.entries.len()
    }

    /// The position of the entry with key `key`, if any.
    fn find(&self, key: &str) -> (r: Option<usize>)
        ensures
            r matches Some(i) ==> i < self.entries().len() && self.entries()[i as int].key@ == key@,
            r is None ==> !has_key(self.entries(), key@),
    {
        let mut i: usize = 0;
        while i < self.entries.len()
            invariant
                i <= self.entries@.len(),
                forall|k: int| 0 <= k < i ==> (#[trigger] self.entries@[k]).key@ != key@,
            decreases self.entries.len() - i,
        {
            if str_eq(self.entries[i].key.as_str(), key) {
                return Some(i);
            }
            i = i + 1;
        }
        None
    }

    /// The total size of the entries.
    pub fn total_size(&self) -> (t: u64)
        ensures
            t == sizes_sum(self.entries()),
    {
        proof { use_type_invariant(self); }
        let mut t: u64 = 0;
        let mut i: usize = 0;
        while i < self.entries.len()
            invariant
                i <= self.entries@.len(),
                t == sizes_sum(self.entries@.subrange(0, i as int)),
                sizes_sum(self.entries@) <= u64::MAX,
            decreases self.entries.len() - i,
        {
            proof {
                assert(self.entries@.subrange(0, i + 1).drop_last() =~= self.entries@.subrange(0, i as int));
                lemma_sum_concat(self.entries@.subrange(0, i + 1), self.entries@.subrange(i + 1, self.entries@.len() as int));
                assert(self.entries@.subrange(0, i + 1) + self.entries@.subrange(i + 1, self.entries@.len() as int) =~= self.entries@);
            }
            t = t + self.entries[i].file_size;
            i = i + 1;
        }
        assert(self.entries@.subrange(0, self.entries@.len() as int) =~= self.entries@);
        t
    }

    /// A copy of the entry with key `key`, if any.
    pub fn get_entry(&self, key: &str) -> (r: Option<CacheEntry>)
        ensures
            r is Some <==> has_key(self.entries(), key@),
            r matches Some(e) ==> exists|i: int| 0 <= i < self.entries().len()
                && same_entry(e, #[trigger] self.entries()[i]) && self.entries()[i].key@ == key@,
    {
        match self.find(key) {
            Some(i) => Some(self.entries[i].duplicate()),
            None => None,
        }
    }

    /// Adds an entry, replacing the one with the same key if there is one.
    pub fn add_entry(&mut self, entry: CacheEntry)
        requires
            sizes_sum(old(self).entries()) + entry.file_size <= u64::MAX,
        ensures
            final(self).dir() == old(self).dir(),
            has_key(old(self).entries(), entry.key@) ==> exists|i: int| 0 <= i < old(self).entries().len()
                && old(self).entries()[i].key@ == entry.key@ && final(self).entries() == old(self).entries().update(i, entry),
            !has_key(old(self).entries(), entry.key@) ==> final(self).entries() == old(self).entries().push(entry),
    {
        proof { use_type_invariant(&*self); }
        match self.find(entry.key.as_str()) {
            Some(i) => {
                proof {
                    lemma_sum_update(self.entries@, i as int, entry);
                    let s = self.entries@.update(i as int, entry);
                    assert forall|a: int, b: int| 0 <= a < s.len() && 0 <= b < s.len() && a != b implies (#[trigger] s[a]).key@ != (#[trigger] s[b]).key@ by {
                        if a != i && b != i {
                            assert(s[a] == self.entries@[a] && s[b] == self.entries@[b]);
                        } else if a == i {
                            assert(s[b] == self.entries@[b]);
                        } else {
                            assert(s[a] == self.entries@[a]);
                        }
                    }
                }
                let mut entries = Vec::new();
                std::mem::swap(&mut entries, &mut self.entries);
                entries.set(i, entry);
                self.entries = entries;
            },
            None => {
                proof {
                    lemma_sum_push(self.entries@, entry);
                    let s = self.entries@.push(entry);
                    assert forall|a: int, b: int| 0 <= a < s.len() && 0 <= b < s.len() && a != b implies (#[trigger] s[a]).key@ != (#[trigger] s[b]).key@ by {
                        if a < self.entries@.len() && b < self.entries@.len() {
                            assert(s[a] == self.entries@[a] && s[b] == self.entries@[b]);
                        } else if a < self.entries@.len() {
                            assert(s[a] == self.entries@[a]);
                        } else {
                            assert(s[b] == self.entries@[b]);
                        }
                    }
                }
                let mut entries = Vec::new();
                std::mem::swap(&mut entries, &mut self.entries);
                entries.push(entry);
                self.entries = entries;
            },
        }
    }

    /// Removes the entry with key `key`, returning it; nothing changes if
    /// there is none.
    pub fn remove_entry(&mut self, key: &str) -> (r: Option<CacheEntry>)
        ensures
            final(self).dir() == old(self).dir(),
            !has_key(old(self).entries(), key@) ==> r is None && final(self).entries() == old(self).entries(),
            has_key(old(self).entries(), key@) ==> exists|i: int| 0 <= i < old(self).entries().len()
                && old(self).entries()[i].key@ == key@ && r == Some(old(self).entries()[i])
                && final(self).entries() == old(self).entries().remove(i),
            !has_key(final(self).entries(), key@),
    {
        proof { use_type_invariant(&*self); }
        match self.find(key) {
            Some(i) => {
                proof {
                    lemma_sum_remove(self.entries@, i as int);
                    lemma_distinct_remove(self.entries@, i as int);
                }
                let mut entries = Vec::new();
                std::mem::swap(&mut entries, &mut self.entries);
                let e = entries.remove(i);
                self.entries = entries;
                Some(e)
            },
            None => None,
        }
    }

    /// Records an access to the entry with key `key` at time `now`.
    pub fn update_access(&mut self, key: &str, now: u64)
        ensures
            final(self).dir() == old(self).dir(),
            final(self).entries().len() == old(self).entries().len(),
            forall|i: int| 0 <= i < old(self).entries().len() ==> {
                let o = #[trigger] old(self).entries()[i];
                let n = final(self).entries()[i];
                if o.key@ == key@ {
                    n == (CacheEntry { last_accessed: now, access_count: o.access_count.wrapping_add(1), ..o })
                } else {
                    n == o
                }
            },
    {
        proof { use_type_invariant(&*self); }
        match self.find(key) {
            Some(i) => {
                let ghost old_entries = self.entries@;
                let mut entries = Vec::new();
                std::mem::swap(&mut entries, &mut self.entries);
                let mut e = entries.remove(i);
                e.last_accessed = now;
                e.access_count = e.access_count.wrapping_add(1);
                entries.insert(i, e);
                proof {
                    assert(entries@ =~= old_entries.update(i as int, entries@[i as int]));
                    lemma_sum_update(old_entries, i as int, entries@[i as int]);
                    assert forall|a: int| 0 <= a < old_entries.len() && a != i implies old_entries[a].key@ != key@ by {
                        assert(old_entries[a].key@ != old_entries[i as int].key@);
                    }
                    let s = entries@;
                    assert forall|a: int, b: int| 0 <= a < s.len() && 0 <= b < s.len() && a != b implies (#[trigger] s[a]).key@ != (#[trigger] s[b]).key@ by {
                        assert(s[a].key@ == old_entries[a].key@);
                        assert(s[b].key@ == old_entries[b].key@);
                    }
                }
                self.entries = entries;
            },
            None => {},
        }
    }

    /// Removes every entry that has expired at `now`, returning them in
    /// their order; the others stay in theirs.
    pub fn remove_expired(&mut self, now: u64) -> (removed: Vec<CacheEntry>)
        ensures
            final(self).dir() == old(self).dir(),
            final(self).entries() == old(self).entries().filter(|e: CacheEntry| !entry_expired(e, now)),
            removed@ == old(self).entries().filter(|e: CacheEntry| entry_expired(e, now)),
    {
        proof { use_type_invariant(&*self); }
        let ghost input = self.entries@;
        let ghost keep_pred = |e: CacheEntry| !entry_expired(e, now);
        let ghost drop_pred = |e: CacheEntry| entry_expired(e, now);
        let mut rest = Vec::new();
        std::mem::swap(&mut rest, &mut self.entries);
        let mut kept: Vec<CacheEntry> = Vec::new();
        let mut removed: Vec<CacheEntry> = Vec::new();
        let ghost mut i: int = 0;
        proof {
            reveal(Seq::filter);
            assert(input.subrange(0, 0).filter(keep_pred) =~= Seq::<CacheEntry>::empty());
            assert(input.subrange(0, 0).filter(drop_pred) =~= Seq::<CacheEntry>::empty());
            assert(input.subrange(0, input.len() as int) =~= input);
            assert(kept@ + rest@ =~= input);
        }
        while rest.len() > 0
            invariant
                0 <= i <= input.len(),
                rest@ == input.subrange(i, input.len() as int),
                kept@ == input.subrange(0, i).filter(keep_pred),
                removed@ == input.subrange(0, i).filter(drop_pred),
                keys_distinct(kept@ + rest@),
                sizes_sum(kept@ + rest@) <= sizes_sum(input),
                sizes_sum(input) <= u64::MAX,
                keep_pred == (|e: CacheEntry| !entry_expired(e, now)),
                drop_pred == (|e: CacheEntry| entry_expired(e, now)),
            decreases rest.len(),
        {
            let ghost before = kept@ + rest@;
            let x = rest.remove(0);
            let ghost gx = x;
            proof {
                assert(input.subrange(0, i + 1).drop_last() =~= input.subrange(0, i));
                assert(input.subrange(0, i + 1).last() == x);
                assert(rest@ =~= input.subrange(i + 1, input.len() as int));
            }
            let expired = now < x.created_at || now - x.created_at > x.ttl;
            if expired {
                removed.push(x);
                proof {
                    assert(kept@ + rest@ =~= before.remove(kept@.len() as int));
                    lemma_distinct_remove(before, kept@.len() as int);
                    lemma_sum_remove(before, kept@.len() as int);
                }
            } else {
                kept.push(x);
                proof { assert(kept@ + rest@ =~= before); }
            }
            proof {
                let s1 = input.subrange(0, i + 1);
                reveal(Seq::filter);
                assert(s1.filter(keep_pred) == (if keep_pred(s1.last()) {
                    s1.drop_last().filter(keep_pred).push(s1.last())
                } else {
                    s1.drop_last().filter(keep_pred)
                }));
                assert(s1.filter(drop_pred) == (if drop_pred(s1.last()) {
                    s1.drop_last().filter(drop_pred).push(s1.last())
                } else {
                    s1.drop_last().filter(drop_pred)
                }));
                assert(keep_pred(gx) == !expired);
                assert(drop_pred(gx) == expired);
                i = i + 1;
            }
        }
        proof {
            assert(input.subrange(0, input.len() as int) =~= input);
            assert(kept@ + rest@ =~= kept@);
        }
        self.entries = kept;
        removed
    }

    /// Removes least-recently-used entries until at least `space_to_free`
    /// bytes are freed or none is left, returning them in the order they
    /// were removed.
    pub fn remove_lru(&mut self, space_to_free: u64) -> (removed: Vec<CacheEntry>)
        ensures
            final(self).dir() == old(self).dir(),
            lru_removal(old(self).entries(), final(self).entries(), removed@, space_to_free),
    {
        proof { use_type_invariant(&*self); }
        let ghost input = self.entries@;
        let mut cur = Vec::new();
        std::mem::swap(&mut cur, &mut self.entries);
        let mut removed: Vec<CacheEntry> = Vec::new();
        let mut freed: u64 = 0;
        proof {
            assert(removed@ =~= Seq::<CacheEntry>::empty());
        }
        while freed < space_to_free && cur.len() > 0
            invariant
                keys_distinct(cur@),
                sizes_sum(input) <= u64::MAX,
                sizes_sum(cur@) + sizes_sum(removed@) == sizes_sum(input),
                freed == sizes_sum(removed@),
                cur@.len() + removed@.len() == input.len(),
                forall|x: CacheEntry| cur@.contains(x) ==> input.contains(x),
                forall|x: CacheEntry| removed@.contains(x) ==> input.contains(x),
                forall|x: CacheEntry| input.contains(x) ==> cur@.contains(x) || removed@.contains(x),
                forall|x: CacheEntry| !(cur@.contains(x) && removed@.contains(x)),
                forall|a: int, b: int| 0 <= a < removed@.len() && 0 <= b < cur@.len()
                    ==> (#[trigger] removed@[a]).last_accessed <= (#[trigger] cur@[b]).last_accessed,
                removed@.len() > 0 ==> sizes_sum(removed@.drop_last()) < space_to_free,
            decreases cur.len(),
        {
            let mut m: usize = 0;
            let mut k: usize = 1;
            while k < cur.len()
                invariant
                    m < cur.len(),
                    k <= cur.len(),
                    forall|j: int| 0 <= j < k ==> cur@[m as int].last_accessed <= (#[trigger] cur@[j]).last_accessed,
                decreases cur.len() - k,
            {
                if cur[k].last_accessed < cur[m].last_accessed {
                    m = k;
                }
                k = k + 1;
            }
            let ghost old_cur = cur@;
            let ghost old_removed = removed@;
            let x = cur.remove(m);
            proof {
                lemma_sum_remove(old_cur, m as int);
                lemma_sum_push(old_removed, x);
                lemma_distinct_remove(old_cur, m as int);
                assert(old_cur.contains(x));
            }
            freed = freed + x.file_size;
            removed.push(x);
            proof {
                assert(removed@.drop_last() =~= old_removed);
                assert forall|y: CacheEntry| cur@.contains(y) implies input.contains(y) by {
                    let j = choose|j: int| 0 <= j < cur@.len() && cur@[j] == y;
                    let oj = if j < m { j } else { j + 1 };
                    assert(old_cur[oj] == y);
                }
                assert forall|y: CacheEntry| removed@.contains(y) implies input.contains(y) by {
                    let j = choose|j: int| 0 <= j < removed@.len() && removed@[j] == y;
                    if j < old_removed.len() {
                        assert(old_removed[j] == y);
                    }
                }
                assert forall|y: CacheEntry| input.contains(y) implies cur@.contains(y) || removed@.contains(y) by {
                    if old_cur.contains(y) {
                        let j = choose|j: int| 0 <= j < old_cur.len() && old_cur[j] == y;
                        if j < m {
                            assert(cur@[j] == y);
                        } else if j > m {
                            assert(cur@[j - 1] == y);
                        } else {
                            assert(removed@[removed@.len() - 1] == y);
                        }
                    } else {
                        let j = choose|j: int| 0 <= j < old_removed.len() && old_removed[j] == y;
                        assert(removed@[j] == y);
                    }
                }
                assert forall|y: CacheEntry| !(cur@.contains(y) && removed@.contains(y)) by {
                    if cur@.contains(y) && removed@.contains(y) {
                        let j = choose|j: int| 0 <= j < cur@.len() && cur@[j] == y;
                        let r = choose|r: int| 0 <= r < removed@.len() && removed@[r] == y;
                        if r < old_removed.len() {
                            let oj = if j < m { j } else { j + 1 };
                            assert(old_cur[oj] == y);
                            assert(old_removed[r] == y);
                            assert(old_cur.contains(y));
                            assert(old_removed.contains(y));
                        } else {
                            assert(removed@[r] == old_cur[m as int]);
                            assert(cur@[j].key@ != old_cur[m as int].key@);
                        }
                    }
                }
                assert forall|a: int, b: int| 0 <= a < removed@.len() && 0 <= b < cur@.len()
                    implies (#[trigger] removed@[a]).last_accessed <= (#[trigger] cur@[b]).last_accessed by {
                    let ob = if b < m { b } else { b + 1 };
                    assert(cur@[b] == old_cur[ob]);
                    if a < old_removed.len() {
                        assert(removed@[a] == old_removed[a]);
                    }
                }
            }
        }
        self.entries = cur;
        removed
    }
}

/// `after` and `removed` split `before`; every removed entry was used no
/// later than any entry that stays; at least `need` bytes were freed unless
/// nothing is left; and removal stopped as soon as enough was freed.
pub open spec fn lru_removal(before: Seq<CacheEntry>, after: Seq<CacheEntry>, removed: Seq<CacheEntry>, need: u64) -> bool {
    &&& after.len() + removed.len() == before.len()
    &&& forall|x: CacheEntry| after.contains(x) ==> before.contains(x)
    &&& forall|x: CacheEntry| removed.contains(x) ==> before.contains(x)
    &&& forall|x: CacheEntry| before.contains(x) ==> after.contains(x) || removed.contains(x)
    &&& forall|x: CacheEntry| !(after.contains(x) && removed.contains(x))
    &&& forall|a: int, b: int| 0 <= a < removed.len() && 0 <= b < after.len()
        ==> (#[trigger] removed[a]).last_accessed <= (#[trigger] after[b]).last_accessed
    &&& sizes_sum(after) + sizes_sum(removed) == sizes_sum(before)
    &&& (sizes_sum(removed) >= need || after.len() == 0)
    &&& (removed.len() > 0 ==> sizes_sum(removed.drop_last()) < need)
}

/// Making room for data works: when a cache within its size limit has to
/// evict for `len` more bytes, what stays leaves room for them (or nothing
/// stays).
pub proof fn lemma_eviction_makes_room(
    before: Seq<CacheEntry>,
    after: Seq<CacheEntry>,
    removed: Seq<CacheEntry>,
    max_size: u64,
    len: u64,
)
    requires
        sizes_sum(before) <= max_size,
        len > available_space(max_size, sizes_sum(before)),
        lru_removal(before, after, removed, (len - available_space(max_size, sizes_sum(before))) as u64),
    ensures
        after.len() == 0 || sizes_sum(after) + len <= max_size,
{
}

// ---------------------------------------------------------------------------
// Statistics and lookups
// ---------------------------------------------------------------------------

/// Cache statistics
#[derive(Debug, Clone, Copy)]
pub struct CacheStats {
    pub total_entries: usize,
    pub total_size: u64,
    pub hit_count: u64,
    pub miss_count: u64,
    pub eviction_count: u64,
    pub last_cleanup: u64,
}

impl CacheStats {
    /// Fresh statistics, with the last cleanup at `now`.
    pub fn new(now: u64) -> (s: CacheStats)
        ensures
            s == (CacheStats { total_entries: 0, total_size: 0, hit_count: 0, miss_count: 0, eviction_count: 0, last_cleanup: now }),
    {
        CacheStats { total_entries: 0, total_size: 0, hit_count: 0, miss_count: 0, eviction_count: 0, last_cleanup: now }
    }
}

/// Cache lookup result
#[derive(Debug)]
pub enum CacheLookup {
    Hit(CacheEntry),
    Miss,
    Expired(CacheEntry),
}

/// The size the cache may still take before it is full.
pub open spec fn available_space(max_size: u64, total: nat) -> nat {
    if total >= max_size { 0 } else { (max_size - total) as nat }
}

/// Cache manager
#[derive(Debug)]
pub struct CacheManager {
    config: CacheConfig,
    metadata_store: MetadataStore,
    stats: CacheStats,
}

impl CacheManager {
    /// A disabled cache holds no entries.
    #[verifier::type_invariant]
    spec fn disabled_holds_nothing(&self) -> bool {
        !self.config.enabled ==> self.metadata_store.entries().len() == 0
    }

    /// Takes the store out, leaving an empty one in its place until it is
    /// put back.
    fn take_store(&mut self) -> (store: MetadataStore)
        ensures
            store == old(self).metadata_store,
            final(self).config == old(self).config,
            final(self).stats == old(self).stats,
    {
        let mut store = MetadataStore::disabled();
        std::mem::swap(&mut store, &mut self.metadata_store);
        store
    }

    /// The configuration.
    pub closed spec fn config_view(&self) -> CacheConfig {
        self.config
    }

    /// The entries of the cache.
    pub closed spec fn entries(&self) -> Seq<CacheEntry> {
        self.metadata_store.entries()
    }

    /// The cache directory.
    pub closed spec fn dir(&self) -> Seq<char> {
        self.metadata_store.dir()
    }

    /// The counters (hits, misses, evictions, last cleanup).
    pub closed spec fn counters(&self) -> CacheStats {
        self.stats
    }

    /// A manager for a disabled cache.
    pub fn new_disabled(config: CacheConfig, now: u64) -> (m: CacheManager)
        ensures
            m.config_view() == config,
            m.entries().len() == 0,
            m.counters() == CacheStats::new_spec(now),
            keys_distinct(m.entries()),
    {
        CacheManager { config, metadata_store: MetadataStore::disabled(), stats: CacheStats::new(now) }
    }

    /// A manager over a store whose index was loaded from the cache
    /// directory. The application runs [`Self::cleanup`] on it next.
    pub fn with_store(config: CacheConfig, metadata_store: MetadataStore, now: u64) -> (m: CacheManager)
        requires
            config.enabled || metadata_store.entries().len() == 0,
        ensures
            m.config_view() == config,
            m.entries() == metadata_store.entries(),
            m.dir() == metadata_store.dir(),
            m.counters() == CacheStats::new_spec(now),
            keys_distinct(m.entries()),
    {
        proof { use_type_invariant(&metadata_store); }
        CacheManager { config, metadata_store, stats: CacheStats::new(now) }
    }

    /// Generate cache key from repository, version and file name: the
    /// SHA-256 digest of `repository:version:file_name`.
    pub fn generate_key(&self, repository: &str, version: &str, file_name: &str) -> (k: String)
        ensures
            k@ == sha256_hex(vstd::utf8::encode_utf8(repository@ + ":"@ + version@ + ":"@ + file_name@)),
            k@.len() == 64,
    {
        let mut input = concat2(repository, ":");
        input.append(version);
        input.append(":");
        input.append(file_name);
        sha256_hex_digest(input.as_str().as_bytes())
    }

    /// Calculate the checksum of data: its SHA-256 digest.
    pub fn calculate_checksum(data: &[u8]) -> (c: String)
        ensures
            c@ == sha256_hex(data@),
            c@.len() == 64,
    {
        sha256_hex_digest(data)
    }

    /// Whether an entry has expired at time `now`.
    pub fn is_expired(&self, entry: &CacheEntry, now: u64) -> (r: bool)
        ensures
            r == entry_expired(*entry, now),
    {
        now < entry.created_at || now - entry.created_at > entry.ttl
    }

    /// The total size of the cached files.
    pub fn get_total_size(&self) -> (t: u64)
        ensures
            t == sizes_sum(self.entries()),
    {
        self.metadata_store.total_size()
    }

    /// Get cache statistics: the counters, with the current number of
    /// entries and total size.
    pub fn get_stats(&self) -> (s: CacheStats)
        ensures
            !self.config_view().enabled ==> s.total_entries == 0 && s.total_size == 0,
            keys_distinct(self.entries()),
            s == (CacheStats {
                total_entries: self.entries().len() as usize,
                total_size: sizes_sum(self.entries()) as u64,
                ..self.counters()
            }),
    {
        proof {
            use_type_invariant(self);
            use_type_invariant(&self.metadata_store);
        }
        CacheStats {
            total_entries: self.metadata_store.len(),
            total_size: self.metadata_store.total_size(),
            ..self.stats
        }
    }

    /// The path of the file of the entry with key `key`, if there is one.
    pub fn entry_path(&self, key: &str) -> (p: Option<String>)
        ensures
            p is Some <==> has_key(self.entries(), key@),
            p matches Some(path) ==> exists|i: int| 0 <= i < self.entries().len()
                && (#[trigger] self.entries()[i]).key@ == key@ && self.entries()[i].file_path@ == path@,
    {
        match self.metadata_store.get_entry(key) {
            Some(e) => Some(e.file_path),
            None => None,
        }
    }

    /// Look up a cache entry at time `now`, given whether the file of the
    /// entry with this key exists. An entry whose file is missing is
    /// dropped; an expired entry is reported as such; a live one is a hit
    /// and its access is recorded. Hits and misses are counted.
    pub fn lookup(&mut self, key: &str, file_exists: bool, now: u64) -> (r: CacheLookup)
        ensures
            final(self).config_view() == old(self).config_view(),
            final(self).dir() == old(self).dir(),
            !old(self).config_view().enabled ==> r is Miss && final(self).entries() == old(self).entries()
                && final(self).counters() == old(self).counters(),
            old(self).config_view().enabled && !has_key(old(self).entries(), key@) ==> r is Miss
                && final(self).entries() == old(self).entries()
                && final(self).counters() == (CacheStats { miss_count: old(self).counters().miss_count.wrapping_add(1), ..old(self).counters() }),
            old(self).config_view().enabled && has_key(old(self).entries(), key@) ==> exists|i: int| {
                &&& 0 <= i < old(self).entries().len()
                &&& #[trigger] old(self).entries()[i].key@ == key@
                &&& if !file_exists {
                    &&& r is Miss
                    &&& final(self).entries() == old(self).entries().remove(i)
                    &&& final(self).counters() == old(self).counters()
                } else if entry_expired(old(self).entries()[i], now) {
                    &&& r matches CacheLookup::Expired(e) && same_entry(e, old(self).entries()[i])
                    &&& final(self).entries() == old(self).entries()
                    &&& final(self).counters() == old(self).counters()
                } else {
                    &&& r matches CacheLookup::Hit(e) && same_entry(e, old(self).entries()[i])
                    &&& final(self).entries().len() == old(self).entries().len()
                    &&& final(self).entries()[i] == (CacheEntry {
                        last_accessed: now,
                        access_count: old(self).entries()[i].access_count.wrapping_add(1),
                        ..old(self).entries()[i]
                    })
                    &&& forall|j: int| 0 <= j < old(self).entries().len() && j != i
                        ==> #[trigger] final(self).entries()[j] == old(self).entries()[j]
                    &&& final(self).counters() == (CacheStats { hit_count: old(self).counters().hit_count.wrapping_add(1), ..old(self).counters() })
                }
            },
            keys_distinct(final(self).entries()),
    {
        proof { use_type_invariant(&self.metadata_store); }
        if !self.config.enabled {
            return CacheLookup::Miss;
        }
        match self.metadata_store.get_entry(key) {
            Some(entry) => {
                if !file_exists {
                    let mut store = self.take_store();
                    store.remove_entry(key);
                    proof { use_type_invariant(&store); }
                    self.metadata_store = store;
                    return CacheLookup::Miss;
                }
                if self.is_expired(&entry, now) {
                    return CacheLookup::Expired(entry);
                }
                let mut store = self.take_store();
                store.update_access(key, now);
                proof { use_type_invariant(&store); }
                self.metadata_store = store;
                self.stats.hit_count = self.stats.hit_count.wrapping_add(1);
                CacheLookup::Hit(entry)
            },
            None => {
                self.stats.miss_count = self.stats.miss_count.wrapping_add(1);
                CacheLookup::Miss
            },
        }
    }
}

/// The bytes a cache file holds for `data`, and whether they are
/// compressed: a compressed file decodes back to `data`; an uncompressed one
/// is `data`.
pub open spec fn stored_form(data: Seq<u8>, file: Seq<u8>, compressed: bool) -> bool {
    if compressed {
        gunzip_of(file) == Some(data)
    } else {
        file == data
    }
}

/// What reading a cache file gives: the decoded bytes of a compressed file
/// (an error where it cannot be decoded), or the bytes of an uncompressed one.
pub open spec fn read_outcome(file: Seq<u8>, compressed: bool, r: Result<Vec<u8>, TurboCdnError>) -> bool {
    if compressed {
        &&& (r is Ok <==> gunzip_of(file) is Some)
        &&& (r matches Ok(v) ==> gunzip_of(file) == Some(v@))
        &&& (r matches Err(e) ==> e is Cache)
    } else {
        r matches Ok(v) && v@ == file
    }
}

/// Reading a stored file gives back the data that was stored.
pub proof fn lemma_read_gives_back_stored(data: Seq<u8>, file: Seq<u8>, compressed: bool, r: Result<Vec<u8>, TurboCdnError>)
    requires
        stored_form(data, file, compressed),
        read_outcome(file, compressed, r),
    ensures
        r matches Ok(v) && v@ == data,
{
}

impl CacheManager {
    /// Remove a cache entry, returning it so that its file can be deleted.
    pub fn remove(&mut self, key: &str) -> (r: Option<CacheEntry>)
        ensures
            final(self).config_view() == old(self).config_view(),
            final(self).counters() == old(self).counters(),
            final(self).dir() == old(self).dir(),
            !has_key(old(self).entries(), key@) ==> r is None && final(self).entries() == old(self).entries(),
            has_key(old(self).entries(), key@) ==> exists|i: int| 0 <= i < old(self).entries().len()
                && old(self).entries()[i].key@ == key@ && r == Some(old(self).entries()[i])
                && final(self).entries() == old(self).entries().remove(i),
            keys_distinct(final(self).entries()),
    {
        proof { use_type_invariant(&self.metadata_store); }
        proof { use_type_invariant(&*self); }
        let mut store = self.take_store();
        let r = store.remove_entry(key);
        proof { use_type_invariant(&store); }
        self.metadata_store = store;
        r
    }

    /// Evicts least-recently-used entries until `space_to_free` bytes are
    /// freed or the cache is empty; returns how many were evicted, the bytes
    /// freed, and the evicted entries (whose files are to be deleted).
    pub fn remove_lru_entries(&mut self, space_to_free: u64) -> (r: (usize, u64, Vec<CacheEntry>))
        ensures
            final(self).config_view() == old(self).config_view(),
            final(self).dir() == old(self).dir(),
            lru_removal(old(self).entries(), final(self).entries(), r.2@, space_to_free),
            r.0 == r.2@.len(),
            r.1 == sizes_sum(r.2@),
            final(self).counters() == (CacheStats {
                eviction_count: (old(self).counters().eviction_count + r.0) as u64,
                ..old(self).counters()
            }) || r.0 as int + old(self).counters().eviction_count > u64::MAX,
            keys_distinct(final(self).entries()),
    {
        proof { use_type_invariant(&self.metadata_store); }
        proof { use_type_invariant(&*self); }
        let mut store = self.take_store();
        let removed = store.remove_lru(space_to_free);
        proof { use_type_invariant(&store); }
        self.metadata_store = store;
        let count = removed.len();
        let mut freed: u64 = 0;
        let mut i: usize = 0;
        while i < removed.len()
            invariant
                i <= removed@.len(),
                freed == sizes_sum(removed@.subrange(0, i as int)),
                sizes_sum(removed@) <= u64::MAX,
            decreases removed.len() - i,
        {
            proof {
                assert(removed@.subrange(0, i + 1).drop_last() =~= removed@.subrange(0, i as int));
                lemma_sum_concat(removed@.subrange(0, i + 1), removed@.subrange(i + 1, removed@.len() as int));
                assert(removed@.subrange(0, i + 1) + removed@.subrange(i + 1, removed@.len() as int) =~= removed@);
            }
            freed = freed + removed[i].file_size;
            i = i + 1;
        }
        assert(removed@.subrange(0, removed@.len() as int) =~= removed@);
        if count as u64 <= u64::MAX - self.stats.eviction_count {
            self.stats.eviction_count = self.stats.eviction_count + count as u64;
        } else {
            self.stats.eviction_count = self.stats.eviction_count.wrapping_add(count as u64);
        }
        (count, freed, removed)
    }

    /// Makes room for `required_space` more bytes: when the cache's free
    /// space is smaller, least-recently-used entries are evicted until the
    /// difference is freed. Returns the evicted entries.
    pub fn ensure_space_available(&mut self, required_space: u64) -> (evicted: Vec<CacheEntry>)
        ensures
            final(self).config_view() == old(self).config_view(),
            final(self).dir() == old(self).dir(),
            required_space <= available_space(old(self).config_view().max_size, sizes_sum(old(self).entries()))
                ==> evicted@.len() == 0 && final(self).entries() == old(self).entries()
                    && final(self).counters() == old(self).counters(),
            required_space > available_space(old(self).config_view().max_size, sizes_sum(old(self).entries()))
                ==> lru_removal(old(self).entries(), final(self).entries(), evicted@,
                    (required_space - available_space(old(self).config_view().max_size, sizes_sum(old(self).entries()))) as u64),
            keys_distinct(final(self).entries()),
    {
        let current = self.get_total_size();
        let available = self.config.max_size.saturating_sub(current);
        let evicted = if required_space > available {
            let (_, _, evicted) = self.remove_lru_entries(required_space - available);
            evicted
        } else {
            Vec::new()
        };
        proof { use_type_invariant(&self.metadata_store); }
        evicted
    }

    /// The first step of storing data of `data_len` bytes: refused when the
    /// cache is disabled; otherwise room is made for it, and the evicted
    /// entries are returned.
    pub fn prepare_store(&mut self, data_len: u64) -> (r: Result<Vec<CacheEntry>, TurboCdnError>)
        ensures
            final(self).config_view() == old(self).config_view(),
            final(self).dir() == old(self).dir(),
            !old(self).config_view().enabled ==> (r matches Err(TurboCdnError::Cache { message })
                && message@ == "Cache is disabled"@ && final(self).entries() == old(self).entries()),
            old(self).config_view().enabled ==> (r matches Ok(evicted) && (
                data_len <= available_space(old(self).config_view().max_size, sizes_sum(old(self).entries()))
                    ==> evicted@.len() == 0 && final(self).entries() == old(self).entries())
                && (data_len > available_space(old(self).config_view().max_size, sizes_sum(old(self).entries()))
                    ==> lru_removal(old(self).entries(), final(self).entries(), evicted@,
                        (data_len - available_space(old(self).config_view().max_size, sizes_sum(old(self).entries()))) as u64))),
            keys_distinct(final(self).entries()),
    {
        proof { use_type_invariant(&self.metadata_store); }
        if !self.config.enabled {
            return Err(TurboCdnError::cache("Cache is disabled"));
        }
        Ok(self.ensure_space_available(data_len))
    }

    /// The path of the cache file for `key`: `key.cache` in the cache
    /// directory. The separator is the platform's; unless the directory has
    /// a Windows verbatim prefix, the path ends with the file name.
    pub fn cache_file_path(&self, key: &str) -> (p: String)
        ensures
            !has_verbatim_prefix(self.config_view().cache_dir@) ==> seq_ends_with(p@, key@ + ".cache"@),
    {
        let file_name = concat2(key, ".cache");
        join_path(self.config.cache_dir.as_str(), file_name.as_str())
    }

    /// Compress data with gzip: the gzip stream of `data`, or a cache error
    /// exactly where the encoder fails.
    pub fn compress_data(&self, data: &[u8]) -> (r: Result<Vec<u8>, TurboCdnError>)
        ensures
            r is Ok <==> gzip_outcome(data@) is Some,
            r matches Ok(v) ==> gzip_outcome(data@) == Some(v@) && gunzip_of(v@) == Some(data@),
            r matches Err(e) ==> e is Cache,
    {
        match gzip_encode(data) {
            Ok(v) => Ok(v),
            Err(e) => Err(TurboCdnError::Cache { message: concat2("Compression failed: ", e.as_str()) }),
        }
    }

    /// Decompress gzip data.
    pub fn decompress_data(&self, data: &[u8]) -> (r: Result<Vec<u8>, TurboCdnError>)
        ensures
            read_outcome(data@, true, r),
    {
        match gzip_decode(data) {
            Ok(v) => Ok(v),
            Err(e) => Err(TurboCdnError::Cache { message: concat2("Decompression failed: ", e.as_str()) }),
        }
    }

    /// The bytes to write to the cache file for `data`, and whether they are
    /// compressed: data over 1 KiB is compressed when compression is on and
    /// the compressed form is smaller.
    pub fn encode_for_storage(&self, data: &[u8]) -> (r: (Vec<u8>, bool))
        ensures
            stored_form(data@, r.0@, r.1),
            r.1 <==> (self.config_view().compression && data@.len() > 1024
                && gzip_outcome(data@) is Some && gzip_outcome(data@)->Some_0.len() < data@.len()),
            r.1 ==> gzip_outcome(data@) == Some(r.0@),
            !r.1 ==> r.0@ == data@,
    {
        if self.config.compression && data.len() > 1024 {
            match self.compress_data(data) {
                Ok(compressed) => {
                    if compressed.len() < data.len() {
                        return (compressed, true);
                    }
                    (vstd::slice::slice_to_vec(data), false)
                },
                Err(_) => (vstd::slice::slice_to_vec(data), false),
            }
        } else {
            (vstd::slice::slice_to_vec(data), false)
        }
    }

    /// The last step of storing data: records the entry for the file
    /// written at `file_path`, with its checksum, at time `now`, and returns
    /// it.
    pub fn record_store(
        &mut self,
        key: &str,
        file_path: String,
        original_url: &str,
        data: &[u8],
        content_type: Option<String>,
        compressed: bool,
        now: u64,
    ) -> (e: CacheEntry)
        requires
            old(self).config_view().enabled,
            sizes_sum(old(self).entries()) + data@.len() <= u64::MAX,
        ensures
            final(self).config_view() == old(self).config_view(),
            final(self).counters() == old(self).counters(),
            final(self).dir() == old(self).dir(),
            e.key@ == key@,
            e.file_path@ == file_path@,
            e.original_url@ == original_url@,
            e.file_size == data@.len(),
            e.checksum matches Some(c) && c@ == sha256_hex(data@),
            e.content_type == content_type,
            e.created_at == now,
            e.last_accessed == now,
            e.access_count == 1,
            e.compressed == compressed,
            e.ttl == if old(self).config_view().ttl <= u64::MAX / 1000 { (old(self).config_view().ttl * 1000) as u64 } else { u64::MAX },
            has_key(old(self).entries(), key@) ==> exists|i: int| 0 <= i < old(self).entries().len()
                && old(self).entries()[i].key@ == key@ && final(self).entries().len() == old(self).entries().len()
                && same_entry(final(self).entries()[i], e),
            !has_key(old(self).entries(), key@) ==> final(self).entries().len() == old(self).entries().len() + 1
                && same_entry(final(self).entries().last(), e),
            keys_distinct(final(self).entries()),
    {
        proof { use_type_invariant(&self.metadata_store); }
        let checksum = CacheManager::calculate_checksum(data);
        let ttl = if self.config.ttl <= u64::MAX / 1000 { self.config.ttl * 1000 } else { u64::MAX };
        let entry = CacheEntry {
            key: owned(key),
            file_path,
            original_url: owned(original_url),
            file_size: data.len() as u64,
            checksum: Some(checksum),
            content_type,
            created_at: now,
            last_accessed: now,
            access_count: 1,
            compressed,
            ttl,
        };
        let ghost before = self.metadata_store.entries();
        let dup = entry.duplicate();
        let ghost gdup = dup;
        let mut store = self.take_store();
        store.add_entry(dup);
        proof { use_type_invariant(&store); }
        self.metadata_store = store;
        proof {
            if has_key(before, key@) {
                let i = choose|i: int| 0 <= i < before.len() && before[i].key@ == key@
                    && self.metadata_store.entries() == before.update(i, gdup);
                assert(self.metadata_store.entries()[i] == gdup);
                assert(self.entries().len() == before.len());
                assert(same_entry(self.entries()[i], entry));
            }
        }
        entry
    }

    /// Reads a cached entry from the bytes of its file: a compressed file
    /// is decoded.
    pub fn read(&self, entry: &CacheEntry, file_data: Vec<u8>) -> (r: Result<Vec<u8>, TurboCdnError>)
        ensures
            read_outcome(file_data@, entry.compressed, r),
    {
        if entry.compressed {
            self.decompress_data(file_data.as_slice())
        } else {
            Ok(file_data)
        }
    }

    /// Clean up the cache at time `now`: expired entries are dropped, then
    /// least-recently-used ones while the cache is over its size limit.
    /// Returns the dropped entries (expired first).
    pub fn cleanup(&mut self, now: u64) -> (dropped: Vec<CacheEntry>)
        ensures
            final(self).config_view() == old(self).config_view(),
            final(self).dir() == old(self).dir(),
            !old(self).config_view().enabled ==> dropped@.len() == 0 && final(self).entries() == old(self).entries()
                && final(self).counters() == old(self).counters(),
            old(self).config_view().enabled ==> {
                let live = old(self).entries().filter(|e: CacheEntry| !entry_expired(e, now));
                let expired = old(self).entries().filter(|e: CacheEntry| entry_expired(e, now));
                &&& dropped@.subrange(0, expired.len() as int) == expired
                &&& final(self).counters().last_cleanup == now
                &&& if sizes_sum(live) > old(self).config_view().max_size {
                    lru_removal(live, final(self).entries(), dropped@.subrange(expired.len() as int, dropped@.len() as int),
                        (sizes_sum(live) - old(self).config_view().max_size) as u64)
                } else {
                    &&& dropped@.len() == expired.len()
                    &&& final(self).entries() == live
                }
            },
            keys_distinct(final(self).entries()),
    {
        proof { use_type_invariant(&self.metadata_store); }
        if !self.config.enabled {
            return Vec::new();
        }
        let mut store = self.take_store();
        let mut dropped = store.remove_expired(now);
        proof { use_type_invariant(&store); }
        self.metadata_store = store;
        let ghost expired = dropped@;
        let total = self.get_total_size();
        if total > self.config.max_size {
            let (_, _, lru) = self.remove_lru_entries(total - self.config.max_size);
            let ghost lru_view = lru@;
            let mut lru = lru;
            dropped.append(&mut lru);
            assert(dropped@.subrange(0, expired.len() as int) =~= expired);
            assert(dropped@.subrange(expired.len() as int, dropped@.len() as int) =~= lru_view);
        } else {
            assert(dropped@.subrange(0, expired.len() as int) =~= expired);
        }
        self.stats.last_cleanup = now;
        dropped
    }

    /// Copies of the entries, in their order.
    pub fn snapshot(&self) -> (all: Vec<CacheEntry>)
        ensures
            all@.len() == self.entries().len(),
            forall|i: int| 0 <= i < all@.len() ==> same_entry(#[trigger] all@[i], self.entries()[i]),
    {
        self.metadata_store.snapshot()
    }

    /// Clear all cache entries, returning them so that their files can be
    /// deleted.
    pub fn clear(&mut self) -> (dropped: Vec<CacheEntry>)
        ensures
            final(self).config_view() == old(self).config_view(),
            final(self).counters() == old(self).counters(),
            final(self).dir() == old(self).dir(),
            !old(self).config_view().enabled ==> dropped@.len() == 0 && final(self).entries() == old(self).entries(),
            old(self).config_view().enabled ==> dropped@ == old(self).entries() && final(self).entries().len() == 0,
            keys_distinct(final(self).entries()),
    {
        proof { use_type_invariant(&self.metadata_store); }
        if !self.config.enabled {
            return Vec::new();
        }
        let mut store = self.take_store();
        let all = store.take_all();
        proof { use_type_invariant(&store); }
        self.metadata_store = store;
        all
    }
}

impl MetadataStore {
    /// Copies of the entries, in their order, as the index file lists them.
    pub fn snapshot(&self) -> (all: Vec<CacheEntry>)
        ensures
            all@.len() == self.entries().len(),
            forall|i: int| 0 <= i < all@.len() ==> same_entry(#[trigger] all@[i], self.entries()[i]),
    {
        let mut all: Vec<CacheEntry> = Vec::new();
        let mut i: usize = 0;
        while i < self.entries.len()
            invariant
                i <= self.entries@.len(),
                all@.len() == i,
                forall|k: int| 0 <= k < i ==> same_entry(#[trigger] all@[k], self.entries@[k]),
            decreases self.entries.len() - i,
        {
            all.push(self.entries[i].duplicate());
            i = i + 1;
        }
        all
    }

    /// Removes every entry, returning them in their order.
    pub fn take_all(&mut self) -> (all: Vec<CacheEntry>)
        ensures
            final(self).dir() == old(self).dir(),
            all@ == old(self).entries(),
            final(self).entries().len() == 0,
    {
        let mut all = Vec::new();
        std::mem::swap(&mut all, &mut self.entries);
        all
    }
}

impl CacheStats {
    /// Fresh statistics, with the last cleanup at `now`.
    pub open spec fn new_spec(now: u64) -> CacheStats {
        CacheStats { total_entries: 0, total_size: 0, hit_count: 0, miss_count: 0, eviction_count: 0, last_cleanup: now }
    }
}

} // verus!
