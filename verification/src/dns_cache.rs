//! A DNS resolution cache: entries live for a TTL, expired ones are swept
//! periodically, and when the cache is full the least recently used quarter
//! is evicted. Hits, misses and sweeps are counted. The entries are kept in
//! a `dashmap::DashMap` keyed by host name.
//!
//! Resolving a name is I/O, done by the application between
//! [`DnsCache::lookup`] (which answers from the cache where it can) and
//! [`DnsCache::record_resolution`] / [`DnsCache::record_failure`]. Times
//! are milliseconds on a monotonic clock.
use vstd::prelude::*;
use dashmap::DashMap;
use crate::text::owned;

verus! {

/// An IP address: IPv4 as its 32 bits, IPv6 as its 128 bits.
#[derive(Debug, Clone, Copy, PartialEq, Eq, Structural)]
pub enum IpAddress {
    V4(u32),
    V6(u128),
}

/// DNS cache entry
#[derive(Debug, Clone)]
pub struct DnsCacheEntry {
    pub addresses: Vec<IpAddress>,
    pub created_at: u64,
    pub ttl: u64,
    pub hit_count: u64,
    pub last_accessed: u64,
}

/// The age of an entry at `now` (zero for an entry dated later).
pub open spec fn entry_age(e: DnsCacheEntry, now: u64) -> int {
    if now >= e.created_at { now - e.created_at } else { 0 }
}

/// Whether an entry is still valid at `now`: younger than its TTL.
pub open spec fn entry_valid(e: DnsCacheEntry, now: u64) -> bool {
    entry_age(e, now) < e.ttl
}

impl DnsCacheEntry {
    /// Check if the entry is still valid at `now`
    pub fn is_valid(&self, now: u64) -> (r: bool)
        ensures
            r == entry_valid(*self, now),
    {
        let age = if now >= self.created_at { now - self.created_at } else { 0 };
        age < self.ttl
    }

    /// Check if the entry has expired at `now`
    pub fn is_expired(&self, now: u64) -> (r: bool)
        ensures
            r == !entry_valid(*self, now),
    {
        !self.is_valid(now)
    }

    /// Record a hit at `now`
    pub fn mark_accessed(&mut self, now: u64)
        ensures
            final(self).addresses@ == old(self).addresses@,
            final(self).created_at == old(self).created_at,
            final(self).ttl == old(self).ttl,
            final(self).hit_count == old(self).hit_count.wrapping_add(1),
            final(self).last_accessed == now,
    {
        self.hit_count = self.hit_count.wrapping_add(1);
        self.last_accessed = now;
    }
}

/// DNS cache statistics. The hit ratio is `cache_hits` over all lookups
/// (`cache_hits + cache_misses`).
#[derive(Debug, Clone, Copy, PartialEq, Eq)]
pub struct DnsCacheStats {
    pub total_entries: usize,
    pub cache_hits: u64,
    pub cache_misses: u64,
    pub expired_cleaned: u64,
    pub time_saved_ms: u64,
}

// ---------------------------------------------------------------------------
// The map of entries
// ---------------------------------------------------------------------------

/// `dashmap::DashMap`, the concurrent hash map the entries live in.
#[verifier::external_type_specification]
#[verifier::external_body]
#[verifier::reject_recursive_types(K)]
#[verifier::reject_recursive_types(V)]
#[verifier::reject_recursive_types(S)]
pub struct ExDashMap<K, V, S>(DashMap<K, V, S>);

/// The map from host name to entry.
pub type DnsMap = DashMap<String, DnsCacheEntry>;

/// What a map of entries holds: for each host name, its entry.
pub uninterp spec fn dns_map_contents(m: DnsMap) -> Map<Seq<char>, DnsCacheEntry>;

/// Two entries with the same addresses, times and counts.
pub open spec fn same_record(a: DnsCacheEntry, b: DnsCacheEntry) -> bool {
    &&& a.addresses@ == b.addresses@
    &&& a.created_at == b.created_at
    &&& a.ttl == b.ttl
    &&& a.hit_count == b.hit_count
    &&& a.last_accessed == b.last_accessed
}

/// `DashMap::new`: an empty map.
#[verifier::external_body]
fn map_new() -> (fresh: DnsMap)
    ensures
        dns_map_contents(fresh).dom() == Set::<Seq<char>>::empty(),
{
    DashMap::new()
}

/// `DashMap::len`: the number of entries.
#[verifier::external_body]
fn map_len(m: &DnsMap) -> (count: usize)
    ensures
        count == dns_map_contents(*m).len(),
{
    m.len()
}

/// `DashMap::contains_key`: whether `key` has an entry.
#[verifier::external_body]
fn map_contains(m: &DnsMap, key: &str) -> (r: bool)
    ensures
        r == dns_map_contents(*m).contains_key(key@),
{
    m.contains_key(key)
}

/// `DashMap::get`, cloned: a copy of the entry for `key`, if any.
#[verifier::external_body]
fn map_get(m: &DnsMap, key: &str) -> (r: Option<DnsCacheEntry>)
    ensures
        r is Some <==> dns_map_contents(*m).contains_key(key@),
        r matches Some(e) ==> same_record(e, dns_map_contents(*m)[key@]),
{
    match m.get(key) {
        Some(entry) => Some(entry.value().clone()),
        None => None,
    }
}

/// `DashMap::insert`: the entry for `key` becomes `value`.
#[verifier::external_body]
fn map_insert(m: &mut DnsMap, key: String, value: DnsCacheEntry)
    ensures
        dns_map_contents(*final(m)) == dns_map_contents(*old(m)).insert(key@, value),
{
    m.insert(key, value);
}

/// `DashMap::remove`: `key` no longer has an entry.
#[verifier::external_body]
fn map_remove(m: &mut DnsMap, key: &str)
    ensures
        dns_map_contents(*final(m)) == dns_map_contents(*old(m)).remove(key@),
{
    m.remove(key);
}

/// `DashMap::clear`: no entries are left.
#[verifier::external_body]
fn map_clear(m: &mut DnsMap)
    ensures
        dns_map_contents(*final(m)).dom() == Set::<Seq<char>>::empty(),
{
    m.clear();
}

/// `DashMap::iter`, each entry taken as its host, creation time, TTL and
/// last access time: every entry once, in the map's own order, which
/// nothing here relies on.
#[verifier::external_body]
fn map_times(m: &DnsMap) -> (times: Vec<(String, u64, u64, u64)>)
    ensures
        times@.len() == dns_map_contents(*m).len(),
        (forall|i: int, j: int| 0 <= i < times@.len() && 0 <= j < times@.len() && i != j
            ==> (#[trigger] times@[i]).0@ != (#[trigger] times@[j]).0@),
        (forall|i: int| 0 <= i < times@.len() ==> times_match(dns_map_contents(*m), #[trigger] times@[i])),
        (forall|k: Seq<char>| dns_map_contents(*m).contains_key(k)
            ==> exists|i: int| 0 <= i < times@.len() && (#[trigger] times@[i]).0@ == k),
{
    m.iter().map(|e| (e.key().clone(), e.value().created_at, e.value().ttl, e.value().last_accessed)).collect()
}

/// A host's creation time, TTL and last access time, as the map holds them.
pub open spec fn times_match(m: Map<Seq<char>, DnsCacheEntry>, t: (String, u64, u64, u64)) -> bool {
    &&& m.contains_key(t.0@)
    &&& m[t.0@].created_at == t.1
    &&& m[t.0@].ttl == t.2
    &&& m[t.0@].last_accessed == t.3
}

/// A map whose hosts are all listed holds finitely many entries.
proof fn lemma_listed_hosts_finite(m: Map<Seq<char>, DnsCacheEntry>, times: Seq<(String, u64, u64, u64)>)
    requires
        forall|i: int| 0 <= i < times.len() ==> times_match(m, #[trigger] times[i]),
        forall|k: Seq<char>| m.contains_key(k) ==> exists|i: int| 0 <= i < times.len() && (#[trigger] times[i]).0@ == k,
    ensures
        m.dom().finite(),
{
    let keys = times.map_values(|t: (String, u64, u64, u64)| t.0@);
    assert(m.dom() =~= keys.to_set()) by {
        assert forall|k: Seq<char>| m.dom().contains(k) implies keys.to_set().contains(k) by {
            let i = choose|i: int| 0 <= i < times.len() && (#[trigger] times[i]).0@ == k;
            assert(keys[i] == k);
        }
        assert forall|k: Seq<char>| keys.to_set().contains(k) implies m.dom().contains(k) by {
            let i = choose|i: int| 0 <= i < keys.len() && keys[i] == k;
            assert(times_match(m, times[i]));
        }
    }
    vstd::seq_lib::seq_to_set_is_finite(keys);
}

/// No two listed hosts are the same.
pub open spec fn hosts_distinct(s: Seq<(String, u64, u64, u64)>) -> bool {
    forall|i: int, j: int| 0 <= i < s.len() && 0 <= j < s.len() && i != j ==> (#[trigger] s[i]).0@ != (#[trigger] s[j]).0@
}

proof fn lemma_hosts_remove(s: Seq<(String, u64, u64, u64)>, i: int)
    requires
        0 <= i < s.len(),
        hosts_distinct(s),
    ensures
        hosts_distinct(s.remove(i)),
        forall|j: int| 0 <= j < s.remove(i).len() ==> (#[trigger] s.remove(i)[j]).0@ != s[i].0@,
{
    let r = s.remove(i);
    assert forall|a: int, b: int| 0 <= a < r.len() && 0 <= b < r.len() && a != b implies (#[trigger] r[a]).0@ != (#[trigger] r[b]).0@ by {
        let sa = if a < i { a } else { a + 1 };
        let sb = if b < i { b } else { b + 1 };
        assert(r[a] == s[sa] && r[b] == s[sb]);
    }
    assert forall|j: int| 0 <= j < r.len() implies (#[trigger] r[j]).0@ != s[i].0@ by {
        let sj = if j < i { j } else { j + 1 };
        assert(r[j] == s[sj]);
    }
}

// ---------------------------------------------------------------------------
// What the cache answers and keeps
// ---------------------------------------------------------------------------

/// The answer the entries give for `host` at `now`: the addresses of its
/// entry while that entry is valid, nothing otherwise.
pub open spec fn cached_answer(m: Map<Seq<char>, DnsCacheEntry>, host: Seq<char>, now: u64) -> Option<Seq<IpAddress>> {
    if m.contains_key(host) && entry_valid(m[host], now) {
        Some(m[host].addresses@)
    } else {
        None
    }
}

/// An entry answers for its host with its addresses as long as it is
/// valid: what was recorded for a name is what a lookup gives back until
/// its TTL runs out.
pub proof fn lemma_valid_entry_answers(m: Map<Seq<char>, DnsCacheEntry>, host: Seq<char>, now: u64)
    requires
        m.contains_key(host),
        entry_valid(m[host], now),
    ensures
        cached_answer(m, host, now) == Some(m[host].addresses@),
{
}

/// The entries still valid at `now`.
pub open spec fn live_entries(m: Map<Seq<char>, DnsCacheEntry>, now: u64) -> Map<Seq<char>, DnsCacheEntry> {
    m.restrict(m.dom().filter(|k: Seq<char>| entry_valid(m[k], now)))
}

/// Whether the periodic sweep of expired entries is due at `now`, the last
/// one having run at `last_cleanup`.
pub open spec fn sweep_due(last_cleanup: u64, now: u64) -> bool {
    now >= last_cleanup && now - last_cleanup >= CLEANUP_INTERVAL_MS
}

/// The entries left after the sweep that an insertion at `now` runs when
/// it is due.
pub open spec fn after_sweep(m: Map<Seq<char>, DnsCacheEntry>, last_cleanup: u64, now: u64) -> Map<Seq<char>, DnsCacheEntry> {
    if sweep_due(last_cleanup, now) { live_entries(m, now) } else { m }
}

/// The entries an insertion of `host` leaves: those left after the sweep,
/// less the least recently used where the cache was full, and the new entry
/// for `host`.
pub open spec fn inserted_entries(
    before: Map<Seq<char>, DnsCacheEntry>,
    last_cleanup: u64,
    capacity: usize,
    now: u64,
    host: Seq<char>,
    after: Map<Seq<char>, DnsCacheEntry>,
) -> bool {
    let swept = after_sweep(before, last_cleanup, now);
    &&& after.contains_key(host)
    &&& swept.len() < capacity ==> after == swept.insert(host, after[host])
    &&& swept.len() >= capacity ==> exists|kept: Map<Seq<char>, DnsCacheEntry>, removed: Set<Seq<char>>|
        #[trigger] oldest_removed(swept, kept, removed, eviction_count(swept.len(), capacity))
            && after == kept.insert(host, after[host])
}

/// What a lookup gives after an insertion: the new entry's addresses for
/// its host while that entry is valid, and for every other host what it
/// gave before. So a recorded resolution is answered until its TTL runs
/// out, as long as no sweep or eviction drops it.
pub proof fn lemma_lookup_after_insert(m: Map<Seq<char>, DnsCacheEntry>, host: Seq<char>, e: DnsCacheEntry, other: Seq<char>, now: u64)
    requires
        other != host,
    ensures
        entry_valid(e, now) ==> cached_answer(m.insert(host, e), host, now) == Some(e.addresses@),
        !entry_valid(e, now) ==> cached_answer(m.insert(host, e), host, now) is None,
        cached_answer(m.insert(host, e), other, now) == cached_answer(m, other, now),
{
}

/// An entry after a hit at `now`: one more hit, last used at `now`.
pub open spec fn accessed(before: DnsCacheEntry, after: DnsCacheEntry, now: u64) -> bool {
    &&& after.addresses@ == before.addresses@
    &&& after.created_at == before.created_at
    &&& after.ttl == before.ttl
    &&& after.hit_count == before.hit_count.wrapping_add(1)
    &&& after.last_accessed == now
}

/// `after` is `before` without the hosts in `removed`, which are `count`
/// hosts of `before` (or all of them where there are fewer), none used
/// later than any host that stays.
pub open spec fn oldest_removed(
    before: Map<Seq<char>, DnsCacheEntry>,
    after: Map<Seq<char>, DnsCacheEntry>,
    removed: Set<Seq<char>>,
    count: nat,
) -> bool {
    &&& removed.subset_of(before.dom())
    &&& removed.finite()
    &&& removed.len() == if count < before.len() { count } else { before.len() }
    &&& after == before.remove_keys(removed)
    &&& forall|r: Seq<char>, k: Seq<char>| removed.contains(r) && after.contains_key(k)
        ==> (#[trigger] before[r]).last_accessed <= (#[trigger] after[k]).last_accessed
}

/// Three quarters of `n`, rounded down.
pub open spec fn three_quarters(n: usize) -> int {
    (3 * n) / 4
}

/// How many entries eviction removes from `len` entries: down to three
/// quarters of the capacity.
pub open spec fn eviction_count(len: nat, capacity: usize) -> nat {
    if len > three_quarters(capacity) { (len - three_quarters(capacity)) as nat } else { 0 }
}

/// How often expired entries are swept: every five minutes.
pub const CLEANUP_INTERVAL_MS: u64 = 300_000;

/// DNS cache
#[derive(Debug)]
pub struct DnsCache {
    cache: DnsMap,
    stats: DnsCacheStats,
    default_ttl: u64,
    max_entries: usize,
    last_cleanup: u64,
}

impl DnsCache {
    /// The entries, by host name.
    pub closed spec fn entries(&self) -> Map<Seq<char>, DnsCacheEntry> {
        dns_map_contents(self.cache)
    }

    /// The counters.
    pub closed spec fn counters(&self) -> DnsCacheStats {
        self.stats
    }

    /// The TTL of entries inserted without one.
    pub closed spec fn default_ttl_ms(&self) -> u64 {
        self.default_ttl
    }

    /// The number of entries from which insertion first evicts.
    pub closed spec fn capacity(&self) -> usize {
        self.max_entries
    }

    /// When expired entries were last swept.
    pub closed spec fn last_cleanup_at(&self) -> u64 {
        self.last_cleanup
    }

    /// Create a new DNS cache created at `now`, with a default TTL (ms) and
    /// a maximum number of entries; expired entries are swept every five
    /// minutes.
    pub fn new(default_ttl: u64, max_entries: usize, now: u64) -> (c: DnsCache)
        ensures
            c.entries().dom() == Set::<Seq<char>>::empty(),
            c.counters() == (DnsCacheStats { total_entries: 0, cache_hits: 0, cache_misses: 0, expired_cleaned: 0, time_saved_ms: 0 }),
            c.default_ttl_ms() == default_ttl,
            c.capacity() == max_entries,
            c.last_cleanup_at() == now,
    {
        DnsCache {
            cache: map_new(),
            stats: DnsCacheStats { total_entries: 0, cache_hits: 0, cache_misses: 0, expired_cleaned: 0, time_saved_ms: 0 },
            default_ttl,
            max_entries,
            last_cleanup: now,
        }
    }

    /// Create DNS cache with default settings: five minutes' TTL, at most
    /// 1000 entries.
    pub fn with_defaults(now: u64) -> (c: DnsCache)
        ensures
            c.entries().dom() == Set::<Seq<char>>::empty(),
            c.default_ttl_ms() == 300_000,
            c.capacity() == 1000,
            c.last_cleanup_at() == now,
    {
        DnsCache::new(300_000, 1000, now)
    }

    /// Number of entries
    pub fn len(&self) -> (n: usize)
        ensures
            n == self.entries().len(),
    {
        map_len(&self.cache)
    }

    /// Whether the cache is empty
    pub fn is_empty(&self) -> (r: bool)
        ensures
            r == (self.entries().len() == 0),
    {
        map_len(&self.cache) == 0
    }

    /// Whether the cache holds an entry for `hostname`, valid or not
    pub fn contains(&self, hostname: &str) -> (r: bool)
        ensures
            r == self.entries().contains_key(hostname@),
    {
        map_contains(&self.cache, hostname)
    }

    /// A copy of the entry for `hostname`, valid or not
    pub fn get_entry(&self, hostname: &str) -> (r: Option<DnsCacheEntry>)
        ensures
            r is Some <==> self.entries().contains_key(hostname@),
            r matches Some(e) ==> same_record(e, self.entries()[hostname@]),
    {
        map_get(&self.cache, hostname)
    }

    /// Get cache statistics
    pub fn get_stats(&self) -> (s: DnsCacheStats)
        ensures
            s == (DnsCacheStats { total_entries: self.entries().len() as usize, ..self.counters() }),
    {
        DnsCacheStats { total_entries: map_len(&self.cache), ..self.stats }
    }

    /// Answers a lookup of `hostname` at `now` from the cache: a valid
    /// entry is a hit (its addresses are returned and 50 ms are counted as
    /// saved); an expired one is dropped. `None` means the name must be
    /// resolved.
    pub fn lookup(&mut self, hostname: &str, now: u64) -> (r: Option<Vec<IpAddress>>)
        ensures
            final(self).default_ttl_ms() == old(self).default_ttl_ms(),
            final(self).capacity() == old(self).capacity(),
            final(self).last_cleanup_at() == old(self).last_cleanup_at(),
            match r {
                Some(a) => cached_answer(old(self).entries(), hostname@, now) == Some(a@),
                None => cached_answer(old(self).entries(), hostname@, now) is None,
            },
            !old(self).entries().contains_key(hostname@) ==> final(self).entries() == old(self).entries()
                && final(self).counters() == old(self).counters(),
            old(self).entries().contains_key(hostname@) && entry_valid(old(self).entries()[hostname@], now) ==> {
                &&& final(self).entries() == old(self).entries().insert(hostname@, final(self).entries()[hostname@])
                &&& accessed(old(self).entries()[hostname@], final(self).entries()[hostname@], now)
                &&& final(self).counters() == (DnsCacheStats {
                    cache_hits: old(self).counters().cache_hits.wrapping_add(1),
                    time_saved_ms: old(self).counters().time_saved_ms.wrapping_add(50),
                    ..old(self).counters()
                })
            },
            old(self).entries().contains_key(hostname@) && !entry_valid(old(self).entries()[hostname@], now) ==> {
                &&& final(self).entries() == old(self).entries().remove(hostname@)
                &&& final(self).counters() == old(self).counters()
            },
    {
        match map_get(&self.cache, hostname) {
            Some(entry) => {
                if entry.is_valid(now) {
                    let mut entry = entry;
                    entry.mark_accessed(now);
                    let addresses = entry.addresses.clone();
                    map_insert(&mut self.cache, owned(hostname), entry);
                    self.stats.cache_hits = self.stats.cache_hits.wrapping_add(1);
                    self.stats.time_saved_ms = self.stats.time_saved_ms.wrapping_add(50);
                    Some(addresses)
                } else {
                    map_remove(&mut self.cache, hostname);
                    None
                }
            },
            None => None,
        }
    }

    /// Records a failed resolution: a miss.
    pub fn record_failure(&mut self)
        ensures
            final(self).entries() == old(self).entries(),
            final(self).default_ttl_ms() == old(self).default_ttl_ms(),
            final(self).capacity() == old(self).capacity(),
            final(self).last_cleanup_at() == old(self).last_cleanup_at(),
            final(self).counters() == (DnsCacheStats { cache_misses: old(self).counters().cache_misses.wrapping_add(1), ..old(self).counters() }),
    {
        self.stats.cache_misses = self.stats.cache_misses.wrapping_add(1);
    }

    /// Records the addresses a resolution of `hostname` at `now` gave: an
    /// empty answer is not cached and not counted; otherwise the addresses
    /// are cached with the default TTL and the lookup counts as a miss.
    /// Returns the addresses, or `None` for an empty answer.
    pub fn record_resolution(&mut self, hostname: &str, addresses: Vec<IpAddress>, now: u64) -> (r: Option<Vec<IpAddress>>)
        ensures
            addresses@.len() == 0 ==> r is None && final(self).entries() == old(self).entries()
                && final(self).counters() == old(self).counters()
                && final(self).last_cleanup_at() == old(self).last_cleanup_at(),
            addresses@.len() > 0 ==> (r matches Some(a) && a@ == addresses@)
                && final(self).counters().cache_misses == old(self).counters().cache_misses.wrapping_add(1)
                && final(self).entries().contains_key(hostname@)
                && final(self).entries()[hostname@].addresses@ == addresses@
                && final(self).entries()[hostname@].created_at == now
                && final(self).entries()[hostname@].ttl == old(self).default_ttl_ms()
                && final(self).entries()[hostname@].last_accessed == now
                && final(self).entries()[hostname@].hit_count == 0
                && inserted_entries(old(self).entries(), old(self).last_cleanup_at(), old(self).capacity(), now,
                    hostname@, final(self).entries()),
            final(self).default_ttl_ms() == old(self).default_ttl_ms(),
            final(self).capacity() == old(self).capacity(),
    {
        if addresses.len() == 0 {
            return None;
        }
        let copy = addresses.clone();
        self.insert(hostname, addresses, None, now);
        self.stats.cache_misses = self.stats.cache_misses.wrapping_add(1);
        Some(copy)
    }

    /// Insert an entry for `hostname` at `now`, with the given TTL or the
    /// default one: expired entries are swept first when the sweep is due,
    /// and when the cache is full the least recently used entries are
    /// evicted down to three quarters of its capacity. Other entries are
    /// only ever dropped, never changed.
    pub fn insert(&mut self, hostname: &str, addresses: Vec<IpAddress>, ttl: Option<u64>, now: u64)
        ensures
            final(self).default_ttl_ms() == old(self).default_ttl_ms(),
            final(self).capacity() == old(self).capacity(),
            final(self).counters().cache_hits == old(self).counters().cache_hits,
            final(self).counters().cache_misses == old(self).counters().cache_misses,
            final(self).counters().time_saved_ms == old(self).counters().time_saved_ms,
            final(self).counters().total_entries == final(self).entries().len(),
            final(self).entries().contains_key(hostname@),
            final(self).entries()[hostname@].addresses@ == addresses@,
            final(self).entries()[hostname@].created_at == now,
            final(self).entries()[hostname@].last_accessed == now,
            final(self).entries()[hostname@].hit_count == 0,
            final(self).entries()[hostname@].ttl == match ttl { Some(t) => t, None => old(self).default_ttl_ms() },
            forall|k: Seq<char>| k != hostname@ && #[trigger] final(self).entries().contains_key(k)
                ==> old(self).entries().contains_key(k) && final(self).entries()[k] == old(self).entries()[k],
            inserted_entries(old(self).entries(), old(self).last_cleanup_at(), old(self).capacity(), now,
                hostname@, final(self).entries()),
            sweep_due(old(self).last_cleanup_at(), now) ==> final(self).last_cleanup_at() == now,
            !sweep_due(old(self).last_cleanup_at(), now) ==> final(self).last_cleanup_at() == old(self).last_cleanup_at(),
    {
        self.maybe_cleanup(now);
        let ghost swept = self.entries();
        assert(swept == after_sweep(old(self).entries(), old(self).last_cleanup_at(), now));
        let full = map_len(&self.cache) >= self.max_entries;
        if full {
            self.evict_oldest_entries();
        }
        let ghost kept = self.entries();
        assert forall|k: Seq<char>| #[trigger] kept.contains_key(k) implies old(self).entries().contains_key(k)
            && kept[k] == old(self).entries()[k] by {
            assert(swept.contains_key(k) && kept[k] == swept[k]);
        }
        let entry = DnsCacheEntry {
            addresses,
            created_at: now,
            ttl: match ttl {
                Some(t) => t,
                None => self.default_ttl,
            },
            hit_count: 0,
            last_accessed: now,
        };
        map_insert(&mut self.cache, owned(hostname), entry);
        self.stats.total_entries = map_len(&self.cache);
        proof {
            let fin = self.entries();
            assert(fin == kept.insert(hostname@, fin[hostname@]));
            if full {
                let removed = choose|removed: Set<Seq<char>>| #[trigger] oldest_removed(swept, kept, removed,
                    eviction_count(swept.len(), self.max_entries));
                assert(oldest_removed(swept, kept, removed, eviction_count(swept.len(), self.max_entries)));
            } else {
                assert(kept == swept);
            }
        }
    }

    /// Sweeps expired entries when five minutes have passed since the last
    /// sweep.
    pub fn maybe_cleanup(&mut self, now: u64)
        ensures
            final(self).default_ttl_ms() == old(self).default_ttl_ms(),
            final(self).capacity() == old(self).capacity(),
            final(self).counters().cache_hits == old(self).counters().cache_hits,
            final(self).counters().cache_misses == old(self).counters().cache_misses,
            final(self).counters().time_saved_ms == old(self).counters().time_saved_ms,
            sweep_due(old(self).last_cleanup_at(), now)
                ==> final(self).entries() == live_entries(old(self).entries(), now)
                    && final(self).last_cleanup_at() == now,
            !sweep_due(old(self).last_cleanup_at(), now)
                ==> final(self).entries() == old(self).entries() && final(self).counters() == old(self).counters()
                    && final(self).last_cleanup_at() == old(self).last_cleanup_at(),
    {
        if now >= self.last_cleanup && now - self.last_cleanup >= CLEANUP_INTERVAL_MS {
            self.cleanup_expired(now);
            self.last_cleanup = now;
        }
    }

    /// Removes the entries that have expired at `now`, counting them.
    pub fn cleanup_expired(&mut self, now: u64)
        ensures
            final(self).default_ttl_ms() == old(self).default_ttl_ms(),
            final(self).capacity() == old(self).capacity(),
            final(self).last_cleanup_at() == old(self).last_cleanup_at(),
            final(self).entries() == live_entries(old(self).entries(), now),
            final(self).counters().cache_hits == old(self).counters().cache_hits,
            final(self).counters().cache_misses == old(self).counters().cache_misses,
            final(self).counters().time_saved_ms == old(self).counters().time_saved_ms,
            final(self).entries().len() == old(self).entries().len() ==> final(self).counters() == old(self).counters(),
            final(self).entries().len() < old(self).entries().len() ==> final(self).counters() == (DnsCacheStats {
                expired_cleaned: old(self).counters().expired_cleaned.wrapping_add(
                    (old(self).entries().len() - final(self).entries().len()) as u64),
                total_entries: final(self).entries().len() as usize,
                ..old(self).counters()
            }),
    {
        let ghost start = self.entries();
        let times = map_times(&self.cache);
        proof { lemma_listed_hosts_finite(start, times@); }
        let mut removed: usize = 0;
        let ghost mut gone: Set<Seq<char>> = Set::empty();
        let mut i: usize = 0;
        while i < times.len()
            invariant
                i <= times@.len(),
                start.dom().finite(),
                times@.len() == start.len(),
                hosts_distinct(times@),
                forall|j: int| 0 <= j < times@.len() ==> times_match(start, #[trigger] times@[j]),
                forall|k: Seq<char>| start.contains_key(k) ==> exists|j: int| 0 <= j < times@.len() && (#[trigger] times@[j]).0@ == k,
                dns_map_contents(self.cache) == start.remove_keys(gone),
                dns_map_contents(self.cache).dom().finite(),
                dns_map_contents(self.cache).len() + removed == start.len(),
                gone.subset_of(start.dom()),
                forall|j: int| 0 <= j < i ==> (gone.contains((#[trigger] times@[j]).0@) <==> !entry_valid(start[times@[j].0@], now)),
                forall|k: Seq<char>| #[trigger] gone.contains(k) ==> exists|j: int| 0 <= j < i && (#[trigger] times@[j]).0@ == k,
                self.stats == old(self).stats,
                self.default_ttl == old(self).default_ttl,
                self.max_entries == old(self).max_entries,
                self.last_cleanup == old(self).last_cleanup,
            decreases times.len() - i,
        {
            let t = &times[i];
            let ghost k = t.0@;
            assert(times_match(start, times@[i as int]));
            assert(!gone.contains(k)) by {
                if gone.contains(k) {
                    let j = choose|j: int| 0 <= j < i && (#[trigger] times@[j]).0@ == k;
                    assert(times@[j].0@ != times@[i as int].0@);
                }
            }
            let age = if now >= t.1 { now - t.1 } else { 0 };
            if !(age < t.2) {
                let ghost before = dns_map_contents(self.cache);
                map_remove(&mut self.cache, t.0.as_str());
                proof {
                    assert(before.contains_key(k));
                    assert(dns_map_contents(self.cache) =~= start.remove_keys(gone.insert(k)));
                    gone = gone.insert(k);
                }
                removed = removed + 1;
            }
            proof {
                assert forall|j: int| 0 <= j < i + 1 implies (gone.contains((#[trigger] times@[j]).0@) <==> !entry_valid(start[times@[j].0@], now)) by {
                    if j < i {
                        assert(times@[j].0@ != k);
                    }
                }
                assert forall|kk: Seq<char>| #[trigger] gone.contains(kk) implies exists|j: int| 0 <= j < i + 1 && (#[trigger] times@[j]).0@ == kk by {
                    if kk != k {
                        let j = choose|j: int| 0 <= j < i && (#[trigger] times@[j]).0@ == kk;
                        assert(0 <= j < i + 1 && times@[j].0@ == kk);
                    } else {
                        assert(times@[i as int].0@ == kk);
                    }
                }
            }
            i = i + 1;
        }
        proof {
            assert(dns_map_contents(self.cache) =~= live_entries(start, now)) by {
                assert forall|k: Seq<char>| start.contains_key(k) implies (gone.contains(k) <==> !entry_valid(start[k], now)) by {
                    let j = choose|j: int| 0 <= j < times@.len() && (#[trigger] times@[j]).0@ == k;
                    assert(gone.contains(times@[j].0@) <==> !entry_valid(start[times@[j].0@], now));
                }
            }
        }
        if removed > 0 {
            self.stats.expired_cleaned = self.stats.expired_cleaned.wrapping_add(removed as u64);
            self.stats.total_entries = map_len(&self.cache);
        }
    }

    /// Evicts the least recently used entries down to three quarters of
    /// the capacity.
    pub fn evict_oldest_entries(&mut self)
        ensures
            final(self).default_ttl_ms() == old(self).default_ttl_ms(),
            final(self).capacity() == old(self).capacity(),
            final(self).last_cleanup_at() == old(self).last_cleanup_at(),
            exists|removed: Set<Seq<char>>| #[trigger] oldest_removed(old(self).entries(), final(self).entries(), removed,
                eviction_count(old(self).entries().len(), old(self).capacity())),
            final(self).counters() == (DnsCacheStats { total_entries: final(self).entries().len() as usize, ..old(self).counters() }),
    {
        let target = self.max_entries / 4 * 3 + (self.max_entries % 4) * 3 / 4;
        assert(target == three_quarters(self.max_entries)) by (nonlinear_arith)
            requires
                target == self.max_entries / 4 * 3 + (self.max_entries % 4) * 3 / 4;
        let len = map_len(&self.cache);
        let remove_count = len.saturating_sub(target);
        let ghost start = self.entries();
        let mut cur = map_times(&self.cache);
        proof { lemma_listed_hosts_finite(start, cur@); }
        let mut removed: usize = 0;
        let ghost mut gone: Set<Seq<char>> = Set::empty();
        while removed < remove_count && cur.len() > 0
            invariant
                remove_count <= start.len(),
                remove_count == eviction_count(start.len(), self.max_entries),
                start.dom().finite(),
                hosts_distinct(cur@),
                forall|j: int| 0 <= j < cur@.len() ==> times_match(start, #[trigger] cur@[j]),
                forall|j: int| 0 <= j < cur@.len() ==> !gone.contains((#[trigger] cur@[j]).0@),
                forall|k: Seq<char>| start.contains_key(k) && !gone.contains(k)
                    ==> exists|j: int| 0 <= j < cur@.len() && (#[trigger] cur@[j]).0@ == k,
                dns_map_contents(self.cache) == start.remove_keys(gone),
                gone.subset_of(start.dom()),
                gone.finite(),
                gone.len() == removed,
                cur@.len() + removed == start.len(),
                removed <= remove_count,
                forall|g: Seq<char>, j: int| gone.contains(g) && 0 <= j < cur@.len()
                    ==> (#[trigger] start[g]).last_accessed <= (#[trigger] cur@[j]).3,
                self.stats == old(self).stats,
                self.default_ttl == old(self).default_ttl,
                self.max_entries == old(self).max_entries,
                self.last_cleanup == old(self).last_cleanup,
            decreases cur.len(),
        {
            let mut m: usize = 0;
            let mut k: usize = 1;
            while k < cur.len()
                invariant
                    m < cur.len(),
                    k <= cur.len(),
                    forall|j: int| 0 <= j < k ==> cur@[m as int].3 <= (#[trigger] cur@[j]).3,
                decreases cur.len() - k,
            {
                if cur[k].3 < cur[m].3 {
                    m = k;
                }
                k = k + 1;
            }
            let ghost old_cur = cur@;
            let x = cur.remove(m);
            let ghost key = x.0@;
            proof {
                lemma_hosts_remove(old_cur, m as int);
                assert(old_cur[m as int] == x);
                assert(times_match(start, old_cur[m as int]));
                assert(!gone.contains(key));
            }
            map_remove(&mut self.cache, x.0.as_str());
            proof {
                assert(dns_map_contents(self.cache) =~= start.remove_keys(gone.insert(key)));
                let ng = gone.insert(key);
                assert forall|j: int| 0 <= j < cur@.len() implies times_match(start, #[trigger] cur@[j]) by {
                    let oj = if j < m { j } else { j + 1 };
                    assert(cur@[j] == old_cur[oj]);
                }
                assert forall|j: int| 0 <= j < cur@.len() implies !ng.contains((#[trigger] cur@[j]).0@) by {
                    let oj = if j < m { j } else { j + 1 };
                    assert(cur@[j] == old_cur[oj]);
                }
                assert forall|kk: Seq<char>| start.contains_key(kk) && !ng.contains(kk)
                    implies exists|j: int| 0 <= j < cur@.len() && (#[trigger] cur@[j]).0@ == kk by {
                    let oj = choose|j: int| 0 <= j < old_cur.len() && (#[trigger] old_cur[j]).0@ == kk;
                    assert(oj != m);
                    if oj < m {
                        assert(cur@[oj] == old_cur[oj]);
                    } else {
                        assert(cur@[oj - 1] == old_cur[oj]);
                    }
                }
                assert forall|g: Seq<char>, j: int| ng.contains(g) && 0 <= j < cur@.len()
                    implies (#[trigger] start[g]).last_accessed <= (#[trigger] cur@[j]).3 by {
                    let oj = if j < m { j } else { j + 1 };
                    assert(cur@[j] == old_cur[oj]);
                    if g == key {
                        assert(old_cur[m as int].3 <= old_cur[oj].3);
                    }
                }
                gone = ng;
            }
            removed = removed + 1;
        }
        proof {
            let fin = dns_map_contents(self.cache);
            if removed < remove_count {
                assert forall|kk: Seq<char>| start.contains_key(kk) implies gone.contains(kk) by {
                    if !gone.contains(kk) {
                        let j = choose|j: int| 0 <= j < cur@.len() && (#[trigger] cur@[j]).0@ == kk;
                    }
                }
            }
            assert forall|r: Seq<char>, kk: Seq<char>| gone.contains(r) && fin.contains_key(kk)
                implies (#[trigger] start[r]).last_accessed <= (#[trigger] fin[kk]).last_accessed by {
                let j = choose|j: int| 0 <= j < cur@.len() && (#[trigger] cur@[j]).0@ == kk;
                assert(start[r].last_accessed <= cur@[j].3);
            }
            assert(oldest_removed(start, fin, gone, eviction_count(start.len(), self.max_entries)));
        }
        self.stats.total_entries = map_len(&self.cache);
        assert(oldest_removed(old(self).entries(), self.entries(), gone,
            eviction_count(old(self).entries().len(), old(self).capacity())));
    }

    /// Clear all entries
    pub fn clear(&mut self)
        ensures
            final(self).entries().dom() == Set::<Seq<char>>::empty(),
            final(self).default_ttl_ms() == old(self).default_ttl_ms(),
            final(self).capacity() == old(self).capacity(),
            final(self).last_cleanup_at() == old(self).last_cleanup_at(),
            final(self).counters() == (DnsCacheStats { total_entries: 0, ..old(self).counters() }),
    {
        map_clear(&mut self.cache);
        self.stats.total_entries = 0;
    }
}

} // verus!
