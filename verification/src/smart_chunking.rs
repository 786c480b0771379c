//! Smart chunking: chooses how a file is split into byte ranges from its
//! size, whether the server accepts range requests, and how recent chunks
//! performed; then lays out the ranges.
use vstd::prelude::*;
use crate::text::{push_decimal, owned, dec_str};

verus! {

/// One mebibyte.
pub const MIB: u64 = 1048576;

/// Chunk strategy based on file characteristics
#[derive(Debug, Clone, PartialEq, Eq, Structural)]
pub enum ChunkStrategy {
    /// Single chunk for small files
    Single,
    /// Fixed size chunks for medium files
    Fixed { chunk_size: u64 },
    /// Dynamic chunks that adapt to network conditions
    Dynamic { base_size: u64, max_chunks: u32 },
    /// Aggressive chunking for large files
    Aggressive { chunk_size: u64, max_chunks: u32 },
}

/// Chunk performance metrics
#[derive(Debug, Clone)]
pub struct ChunkMetrics {
    /// Chunk index
    pub index: u32,
    /// Chunk size in bytes
    pub size: u64,
    /// Download duration
    pub duration: std::time::Duration,
    /// Number of retry attempts
    pub retry_count: u32,
    /// Success status
    pub success: bool,
    /// Error message if failed
    pub error: Option<String>,
}

/// Chunk range definition (both ends inclusive)
#[derive(Debug, Clone, Copy, PartialEq, Eq, Structural)]
pub struct ChunkRange {
    /// Chunk index
    pub index: u32,
    /// Start byte position (inclusive)
    pub start: u64,
    /// End byte position (inclusive)
    pub end: u64,
    /// Chunk size in bytes
    pub size: u64,
}

/// The decimal text of an HTTP byte-range header for `start..=end`.
pub open spec fn range_header_text(start: u64, end: u64) -> Seq<char> {
    "bytes="@ + dec_str(start as nat) + "-"@ + dec_str(end as nat)
}

impl ChunkRange {
    /// Get HTTP Range header value: `bytes=<start>-<end>`
    pub fn to_range_header(&self) -> (r: String)
        ensures
            r@ == range_header_text(self.start, self.end),
    {
        let mut r = owned("bytes=");
        push_decimal(&mut r, self.start);
        r.append("-");
        push_decimal(&mut r, self.end);
        r
    }
}

/// How the recent chunks went: the number of chunks recorded, how many of
/// them succeeded, and their average speed in bytes per second rounded up.
#[derive(Debug, Clone, Copy, PartialEq, Eq, Structural)]
pub struct RecentPerformance {
    pub total_chunks: u64,
    pub successful_chunks: u64,
    pub avg_speed_ceil: u64,
}

/// The success rate lies below 80%.
pub open spec fn rate_below_80(p: RecentPerformance) -> bool {
    p.successful_chunks * 5 < p.total_chunks * 4
}

/// The success rate lies above 95%.
pub open spec fn rate_above_95(p: RecentPerformance) -> bool {
    p.successful_chunks * 20 > p.total_chunks * 19
}

/// The success rate lies above 90%.
pub open spec fn rate_above_90(p: RecentPerformance) -> bool {
    p.successful_chunks * 10 > p.total_chunks * 9
}

/// The success rate lies below 70%.
pub open spec fn rate_below_70(p: RecentPerformance) -> bool {
    p.successful_chunks * 10 < p.total_chunks * 7
}

pub open spec fn min_u64(a: u64, b: u64) -> u64 {
    if a <= b { a } else { b }
}

pub open spec fn max_u64(a: u64, b: u64) -> u64 {
    if a >= b { a } else { b }
}

/// `x` clamped into `[lo, hi]` (for `lo <= hi`).
pub open spec fn clamp_u64(x: u64, lo: u64, hi: u64) -> u64 {
    if x < lo { lo } else if x > hi { hi } else { x }
}

/// Ceiling of `a / b`.
pub open spec fn div_ceil(a: u64, b: u64) -> int {
    if a % b == 0 { (a / b) as int } else { (a / b) as int + 1 }
}

/// Smart chunking calculator
#[derive(Debug)]
pub struct SmartChunking {
    /// Minimum chunk size
    pub min_chunk_size: u64,
    /// Maximum chunk size
    pub max_chunk_size: u64,
    /// Optimal chunk size based on recent performance
    pub optimal_chunk_size: u64,
    /// Maximum concurrent downloads of the configuration
    pub max_concurrent_downloads: u64,
    /// Recent chunk performance history
    pub performance_history: Vec<ChunkMetrics>,
    /// Maximum history entries to keep
    pub max_history: usize,
}

/// Largest chunk-size setting the calculator handles; the adjustments double
/// a size or add to it, which must stay within `u64`.
pub const MAX_CHUNK_SETTING: u64 = 4611686018427387904;

impl SmartChunking {
    /// The settings the calculations rely on: a positive minimum no larger
    /// than the maximum, sizes small enough to double, and a concurrency
    /// limit that can be doubled.
    pub open spec fn well_formed(&self) -> bool {
        &&& 0 < self.min_chunk_size <= self.max_chunk_size
        &&& self.max_chunk_size <= MAX_CHUNK_SETTING
        &&& self.optimal_chunk_size <= MAX_CHUNK_SETTING
        &&& self.max_concurrent_downloads <= MAX_CHUNK_SETTING
    }

    /// The recorded chunk metrics, oldest first.
    pub open spec fn history(&self) -> Seq<ChunkMetrics> {
        self.performance_history@
    }

    /// Create a new smart chunking calculator from the configured minimum,
    /// maximum and starting chunk sizes and the concurrency limit.
    pub fn new(min_chunk_size: u64, max_chunk_size: u64, optimal_chunk_size: u64, max_concurrent_downloads: u64) -> (s: Self)
        ensures
            s.min_chunk_size == min_chunk_size,
            s.max_chunk_size == max_chunk_size,
            s.optimal_chunk_size == optimal_chunk_size,
            s.max_concurrent_downloads == max_concurrent_downloads,
            s.history().len() == 0,
            s.max_history == 100,
    {
        SmartChunking {
            min_chunk_size,
            max_chunk_size,
            optimal_chunk_size,
            max_concurrent_downloads,
            performance_history: Vec::new(),
            max_history: 100,
        }
    }

    /// The chunk size for `file_size`, before the performance adjustment:
    /// at most a quarter of files under 10MB, at least 5MB for files over 100MB.
    pub open spec fn size_adjusted(&self, file_size: u64) -> u64 {
        if file_size < 10 * MIB {
            min_u64(self.optimal_chunk_size, file_size / 4)
        } else if file_size > 100 * MIB {
            max_u64(self.optimal_chunk_size, (5 * MIB) as u64)
        } else {
            self.optimal_chunk_size
        }
    }

    /// The optimal chunk size for `file_size` given the recent performance.
    pub open spec fn spec_optimal_chunk_size(&self, file_size: u64, recent: Option<RecentPerformance>) -> u64 {
        let c = self.size_adjusted(file_size);
        let c2 = match recent {
            Some(p) => if rate_below_80(p) {
                max_u64(c / 2, self.min_chunk_size)
            } else if rate_above_95(p) && p.avg_speed_ceil > 5 * MIB {
                min_u64((c * 2) as u64, self.max_chunk_size)
            } else {
                c
            },
            None => c,
        };
        clamp_u64(c2, self.min_chunk_size, self.max_chunk_size)
    }

    /// The number of chunks for a file: the chunks needed at `chunk_size`,
    /// at most twice the concurrency limit, at least one (as a `u32`).
    pub open spec fn spec_max_chunks(&self, file_size: u64, chunk_size: u64) -> u32 {
        let calculated = div_ceil(file_size, chunk_size);
        let limited = if calculated <= 2 * self.max_concurrent_downloads {
            calculated
        } else {
            2 * self.max_concurrent_downloads
        };
        (if limited >= 1 { limited } else { 1 }) as u32
    }

    /// The strategy for a file of `file_size` bytes.
    pub open spec fn spec_strategy(&self, file_size: u64, server_supports_ranges: bool, recent: Option<RecentPerformance>) -> ChunkStrategy {
        if !server_supports_ranges {
            ChunkStrategy::Single
        } else if file_size <= MIB {
            if file_size <= self.min_chunk_size {
                ChunkStrategy::Single
            } else {
                ChunkStrategy::Fixed { chunk_size: self.min_chunk_size }
            }
        } else if file_size <= 50 * MIB {
            ChunkStrategy::Fixed { chunk_size: self.spec_optimal_chunk_size(file_size, recent) }
        } else if file_size <= 500 * MIB {
            let base = self.spec_optimal_chunk_size(file_size, recent);
            ChunkStrategy::Dynamic { base_size: base, max_chunks: self.spec_max_chunks(file_size, base) }
        } else {
            ChunkStrategy::Aggressive {
                chunk_size: self.max_chunk_size,
                max_chunks: self.spec_max_chunks(file_size, self.max_chunk_size),
            }
        }
    }

    /// Calculate optimal chunk size based on file size and recent performance
    fn calculate_optimal_chunk_size(&self, file_size: u64, recent: Option<RecentPerformance>) -> (r: u64)
        requires
            self.well_formed(),
        ensures
            r == self.spec_optimal_chunk_size(file_size, recent),
            self.min_chunk_size <= r <= self.max_chunk_size,
    {
        let mut chunk_size = self.optimal_chunk_size;
        if file_size < 10 * MIB {
            if file_size / 4 < chunk_size {
                chunk_size = file_size / 4;
            }
        } else if file_size > 100 * MIB {
            if chunk_size < 5 * MIB {
                chunk_size = 5 * MIB;
            }
        }
        assert(chunk_size == self.size_adjusted(file_size));
        match recent {
            Some(p) => {
                if (p.successful_chunks as u128) * 5 < (p.total_chunks as u128) * 4 {
                    let half = chunk_size / 2;
                    chunk_size = if half >= self.min_chunk_size { half } else { self.min_chunk_size };
                } else if (p.successful_chunks as u128) * 20 > (p.total_chunks as u128) * 19
                    && p.avg_speed_ceil > 5 * MIB {
                    let doubled = chunk_size * 2;
                    chunk_size = if doubled <= self.max_chunk_size { doubled } else { self.max_chunk_size };
                }
            },
            None => {},
        }
        if chunk_size < self.min_chunk_size {
            self.min_chunk_size
        } else if chunk_size > self.max_chunk_size {
            self.max_chunk_size
        } else {
            chunk_size
        }
    }

    /// Calculate maximum number of chunks
    fn calculate_max_chunks(&self, file_size: u64, chunk_size: u64) -> (r: u32)
        requires
            self.well_formed(),
            chunk_size > 0,
        ensures
            r == self.spec_max_chunks(file_size, chunk_size),
    {
        let calculated: u64 = if file_size % chunk_size == 0 {
            file_size / chunk_size
        } else {
            assert(chunk_size >= 2);
            assert(file_size / chunk_size < 0xffff_ffff_ffff_ffffu64) by (nonlinear_arith)
                requires chunk_size >= 2;
            file_size / chunk_size + 1
        };
        let limit: u64 = self.max_concurrent_downloads * 2;
        let limited: u64 = if calculated <= limit { calculated } else { limit };
        let at_least_one: u64 = if limited >= 1 { limited } else { 1 };
        at_least_one as u32
    }

    /// Calculate optimal chunking strategy for a file
    pub fn calculate_strategy(&self, file_size: u64, server_supports_ranges: bool, recent: Option<RecentPerformance>) -> (r: ChunkStrategy)
        requires
            self.well_formed(),
        ensures
            r == self.spec_strategy(file_size, server_supports_ranges, recent),
    {
        if !server_supports_ranges {
            return ChunkStrategy::Single;
        }
        if file_size <= MIB {
            if file_size <= self.min_chunk_size {
                ChunkStrategy::Single
            } else {
                ChunkStrategy::Fixed { chunk_size: self.min_chunk_size }
            }
        } else if file_size <= 50 * MIB {
            let chunk_size = self.calculate_optimal_chunk_size(file_size, recent);
            ChunkStrategy::Fixed { chunk_size }
        } else if file_size <= 500 * MIB {
            let base_size = self.calculate_optimal_chunk_size(file_size, recent);
            let max_chunks = self.calculate_max_chunks(file_size, base_size);
            ChunkStrategy::Dynamic { base_size, max_chunks }
        } else {
            let chunk_size = self.max_chunk_size;
            let max_chunks = self.calculate_max_chunks(file_size, chunk_size);
            ChunkStrategy::Aggressive { chunk_size, max_chunks }
        }
    }
}


/// The number of successful chunks in a history.
pub open spec fn count_successes(h: Seq<ChunkMetrics>) -> nat
    decreases h.len(),
{
    if h.len() == 0 {
        0
    } else {
        count_successes(h.drop_last()) + if h[h.len() - 1].success { 1nat } else { 0nat }
    }
}

/// The performance summary of a history whose average speed, rounded up,
/// is `avg_speed_ceil`; none for an empty history.
pub open spec fn summarize(h: Seq<ChunkMetrics>, avg_speed_ceil: u64) -> Option<RecentPerformance> {
    if h.len() == 0 {
        None
    } else {
        Some(RecentPerformance {
            total_chunks: h.len() as u64,
            successful_chunks: count_successes(h) as u64,
            avg_speed_ceil,
        })
    }
}

/// The history after recording one more chunk: the new entry is appended
/// and, when the history then holds more than `max_history` entries, the
/// oldest one is dropped.
pub open spec fn history_after(h: Seq<ChunkMetrics>, m: ChunkMetrics, max_history: usize) -> Seq<ChunkMetrics> {
    let pushed = h.push(m);
    if pushed.len() > max_history { pushed.drop_first() } else { pushed }
}

/// The optimal chunk size after an adjustment for recent performance: good
/// performance (over 90% success, over 2MB/s) grows it by 512KB up to the
/// maximum, poor performance (under 70% success) shrinks it by 256KB down to
/// the minimum.
pub open spec fn adjusted_optimal(optimal: u64, min: u64, max: u64, p: Option<RecentPerformance>) -> u64 {
    match p {
        Some(p) => if rate_above_90(p) && p.avg_speed_ceil > 2 * MIB {
            min_u64((optimal + 524288) as u64, max)
        } else if rate_below_70(p) {
            max_u64((optimal - 262144) as u64, min)
        } else {
            optimal
        },
        None => optimal,
    }
}

impl SmartChunking {
    /// The number of successful chunks in the history.
    fn count_successful(&self) -> (n: u64)
        ensures
            n == count_successes(self.history()),
    {
        let mut n: u64 = 0;
        let mut i: usize = 0;
        while i < self.performance_history.len()
            invariant
                i <= self.performance_history.len(),
                n == count_successes(self.history().subrange(0, i as int)),
                n <= i,
            decreases self.performance_history.len() - i,
        {
            let ghost h = self.history();
            assert(h.subrange(0, i + 1).drop_last() =~= h.subrange(0, i as int));
            if self.performance_history[i].success {
                n = n + 1;
            }
            i = i + 1;
        }
        assert(self.history().subrange(0, i as int) =~= self.history());
        n
    }

    /// The summary of the recorded history, given its average speed in bytes
    /// per second rounded up; none while nothing has been recorded.
    pub fn recent_performance(&self, avg_speed_ceil: u64) -> (r: Option<RecentPerformance>)
        ensures
            r == summarize(self.history(), avg_speed_ceil),
    {
        if self.performance_history.len() == 0 {
            None
        } else {
            let successful_chunks = self.count_successful();
            Some(RecentPerformance {
                total_chunks: self.performance_history.len() as u64,
                successful_chunks,
                avg_speed_ceil,
            })
        }
    }

    /// Record chunk performance for future optimization, then adapt the
    /// optimal chunk size to the history. `avg_speed_ceil` is the average
    /// speed of the successful chunks of the history that results, in bytes
    /// per second rounded up.
    pub fn record_chunk_performance(&mut self, metrics: ChunkMetrics, avg_speed_ceil: u64)
        requires
            old(self).well_formed(),
            ({
                let h = history_after(old(self).history(), metrics, old(self).max_history);
                let p = summarize(h, avg_speed_ceil);
                (p matches Some(q) && !(rate_above_90(q) && q.avg_speed_ceil > 2 * MIB) && rate_below_70(q))
                    ==> old(self).optimal_chunk_size >= 262144
            }),
        ensures
            final(self).history() == history_after(old(self).history(), metrics, old(self).max_history),
            final(self).optimal_chunk_size == adjusted_optimal(
                old(self).optimal_chunk_size,
                old(self).min_chunk_size,
                old(self).max_chunk_size,
                summarize(final(self).history(), avg_speed_ceil),
            ),
            final(self).min_chunk_size == old(self).min_chunk_size,
            final(self).max_chunk_size == old(self).max_chunk_size,
            final(self).max_concurrent_downloads == old(self).max_concurrent_downloads,
            final(self).max_history == old(self).max_history,
            final(self).well_formed(),
    {
        self.performance_history.push(metrics);
        if self.performance_history.len() > self.max_history {
            self.performance_history.remove(0);
        }
        assert(self.history() =~= history_after(old(self).history(), metrics, old(self).max_history));
        let recent = self.recent_performance(avg_speed_ceil);
        match recent {
            Some(p) => {
                if (p.successful_chunks as u128) * 10 > (p.total_chunks as u128) * 9 && p.avg_speed_ceil > 2 * MIB {
                    let grown = self.optimal_chunk_size + 524288;
                    self.optimal_chunk_size = if grown <= self.max_chunk_size { grown } else { self.max_chunk_size };
                } else if (p.successful_chunks as u128) * 10 < (p.total_chunks as u128) * 7 {
                    let shrunk = self.optimal_chunk_size - 262144;
                    self.optimal_chunk_size = if shrunk >= self.min_chunk_size { shrunk } else { self.min_chunk_size };
                }
            },
            None => {},
        }
    }
}

// ---------------------------------------------------------------------------
// Laying out the ranges
// ---------------------------------------------------------------------------

/// The ranges lie in order inside a file of `file_size` bytes: each carries
/// its position as index and the length of its span as size, the first starts
/// at byte 0, and each starts right after the one before it ends.
pub open spec fn ranges_consecutive(c: Seq<ChunkRange>, file_size: u64) -> bool {
    &&& forall|i: int|
        0 <= i < c.len() ==> {
            &&& (#[trigger] c[i]).index == i
            &&& c[i].start <= c[i].end
            &&& c[i].end < file_size
            &&& c[i].size == c[i].end - c[i].start + 1
        }
    &&& c.len() > 0 ==> c[0].start == 0
    &&& forall|i: int| 0 < i < c.len() ==> (#[trigger] c[i]).start == c[i - 1].end + 1
}

/// A range spans `seg` bytes, or fewer when it is the one that ends the file.
pub open spec fn full_or_last(r: ChunkRange, seg: u64, file_size: u64) -> bool {
    r.size == seg || (r.end + 1 == file_size && r.size < seg)
}

/// The ranges split the whole file into pieces of `chunk_size` bytes, the
/// last one possibly shorter.
pub open spec fn fixed_layout(c: Seq<ChunkRange>, file_size: u64, chunk_size: u64) -> bool {
    &&& ranges_consecutive(c, file_size)
    &&& forall|i: int| 0 <= i < c.len() ==> full_or_last(#[trigger] c[i], chunk_size, file_size)
    &&& (c.len() == 0 <==> file_size == 0)
    &&& c.len() > 0 ==> c[c.len() - 1].end + 1 == file_size
}

/// The number of small ranges an aggressive layout starts with.
pub open spec fn initial_small_chunks(max_chunks: u32) -> u32 {
    if 8 <= max_chunks / 2 { 8 } else { max_chunks / 2 }
}

/// The aggressive layout: up to eight half-size ranges first, then full-size
/// ranges, stopping at the end of the file or after `max_chunks` ranges.
pub open spec fn aggressive_layout(c: Seq<ChunkRange>, file_size: u64, chunk_size: u64, max_chunks: u32) -> bool {
    let init = initial_small_chunks(max_chunks);
    &&& ranges_consecutive(c, file_size)
    &&& c.len() <= max_chunks
    &&& forall|i: int|
        0 <= i < c.len() ==> full_or_last(
            #[trigger] c[i],
            if i < init { (chunk_size / 2) as u64 } else { chunk_size },
            file_size,
        )
    &&& (c.len() == 0 <==> (file_size == 0 || max_chunks == 0))
    &&& c.len() > 0 ==> (c[c.len() - 1].end + 1 == file_size || c.len() == max_chunks)
}

/// The number of ranges a dynamic layout aims for.
pub open spec fn dynamic_chunk_count(file_size: u64, base_size: u64, max_chunks: u32) -> u32 {
    let needed = div_ceil(file_size, base_size);
    (if needed <= max_chunks { needed } else { max_chunks as int }) as u32
}

/// What laying out the ranges of a strategy asks of the file size and the
/// strategy's numbers: no division by zero, no arithmetic overflow, and an
/// index that fits `u32`.
pub open spec fn layout_supported(file_size: u64, strategy: ChunkStrategy) -> bool {
    match strategy {
        ChunkStrategy::Single => file_size > 0,
        ChunkStrategy::Fixed { chunk_size } => fixed_supported(file_size, chunk_size),
        ChunkStrategy::Dynamic { base_size, max_chunks } => {
            &&& file_size > 0
            &&& base_size > 0
            &&& max_chunks > 0
            &&& fixed_supported(file_size, (file_size / dynamic_chunk_count(file_size, base_size, max_chunks) as u64) as u64)
        },
        ChunkStrategy::Aggressive { chunk_size, max_chunks } => {
            &&& file_size as int + chunk_size as int <= u64::MAX as int + 1
            &&& (file_size == 0 || max_chunks == 0 || chunk_size >= 2 || (chunk_size == 1 && max_chunks < 2))
        },
    }
}

/// Fixed-size ranges of `chunk_size` bytes can be laid out for the file.
pub open spec fn fixed_supported(file_size: u64, chunk_size: u64) -> bool {
    file_size == 0 || (chunk_size > 0 && file_size as int + chunk_size as int <= u64::MAX as int + 1
        && div_ceil(file_size, chunk_size) <= u32::MAX as int)
}

/// The ranges that `generate_chunks` lays out for a strategy.
pub open spec fn strategy_layout(c: Seq<ChunkRange>, file_size: u64, strategy: ChunkStrategy) -> bool {
    match strategy {
        ChunkStrategy::Single => c == seq![ChunkRange { index: 0, start: 0, end: (file_size - 1) as u64, size: file_size }],
        ChunkStrategy::Fixed { chunk_size } => fixed_layout(c, file_size, chunk_size),
        ChunkStrategy::Dynamic { base_size, max_chunks } => fixed_layout(
            c,
            file_size,
            (file_size / dynamic_chunk_count(file_size, base_size, max_chunks) as u64) as u64,
        ),
        ChunkStrategy::Aggressive { chunk_size, max_chunks } => aggressive_layout(c, file_size, chunk_size, max_chunks),
    }
}

/// Fewer than `ceil(a / b)` whole pieces of `b` lie below `a`.
proof fn lemma_index_below_div_ceil(index: int, b: int, a: int)
    requires
        b > 0,
        0 <= index,
        index * b < a,
    ensures
        index + 1 <= (if a % b == 0 { a / b } else { a / b + 1 }),
{
    assert(index < a / b + 1) by (nonlinear_arith)
        requires b > 0, 0 <= index, index * b < a;
    if a % b == 0 {
        assert(a == (a / b) * b) by (nonlinear_arith) requires b > 0, a % b == 0;
        assert(index < a / b) by (nonlinear_arith)
            requires b > 0, 0 <= index, index * b < a, a == (a / b) * b;
    }
}

/// Appends the range `start..=end` at position `index`.
fn push_range(chunks: &mut Vec<ChunkRange>, index: u32, start: u64, end: u64)
    requires
        start <= end < u64::MAX,
    ensures
        final(chunks)@ == old(chunks)@.push(ChunkRange { index, start, end, size: (end - start + 1) as u64 }),
{
    chunks.push(ChunkRange { index, start, end, size: end - start + 1 });
}

/// Generate fixed-size chunks
fn generate_fixed_chunks(file_size: u64, chunk_size: u64) -> (chunks: Vec<ChunkRange>)
    requires
        fixed_supported(file_size, chunk_size),
    ensures
        fixed_layout(chunks@, file_size, chunk_size),
{
    let mut chunks: Vec<ChunkRange> = Vec::new();
    let mut start: u64 = 0;
    let mut index: u32 = 0;
    while start < file_size
        invariant
            fixed_supported(file_size, chunk_size),
            start <= file_size,
            chunks@.len() == index,
            ranges_consecutive(chunks@, file_size),
            forall|i: int| 0 <= i < chunks@.len() ==> full_or_last(#[trigger] chunks@[i], chunk_size, file_size),
            chunks@.len() == 0 ==> start == 0,
            chunks@.len() > 0 ==> start == chunks@[chunks@.len() - 1].end + 1,
            start < file_size ==> start == index * chunk_size,
        decreases file_size - start,
    {
        proof {
            lemma_index_below_div_ceil(index as int, chunk_size as int, file_size as int);
        }
        let candidate = start + chunk_size - 1;
        let end = if candidate <= file_size - 1 { candidate } else { file_size - 1 };
        push_range(&mut chunks, index, start, end);
        assert(start + chunk_size == (index + 1) * chunk_size) by (nonlinear_arith)
            requires start == index * chunk_size;
        start = end + 1;
        index = index + 1;
    }
    chunks
}

/// Generate aggressive chunks: smaller ones first, then larger ones
fn generate_aggressive_chunks(file_size: u64, chunk_size: u64, max_chunks: u32) -> (chunks: Vec<ChunkRange>)
    requires
        layout_supported(file_size, ChunkStrategy::Aggressive { chunk_size, max_chunks }),
    ensures
        aggressive_layout(chunks@, file_size, chunk_size, max_chunks),
{
    let mut chunks: Vec<ChunkRange> = Vec::new();
    let mut start: u64 = 0;
    let mut index: u32 = 0;
    let init_small: u32 = if 8 <= max_chunks / 2 { 8 } else { max_chunks / 2 };
    let small_chunk_size = chunk_size / 2;
    let mut n: u32 = 0;
    while n < init_small
        invariant
            layout_supported(file_size, ChunkStrategy::Aggressive { chunk_size, max_chunks }),
            init_small == initial_small_chunks(max_chunks),
            small_chunk_size == chunk_size / 2,
            start <= file_size,
            index == n,
            n <= init_small,
            chunks@.len() == index,
            ranges_consecutive(chunks@, file_size),
            forall|i: int| 0 <= i < chunks@.len() ==> full_or_last(#[trigger] chunks@[i], small_chunk_size, file_size),
            chunks@.len() == 0 ==> start == 0,
            chunks@.len() > 0 ==> start == chunks@[chunks@.len() - 1].end + 1,
        ensures
            n <= init_small,
            index <= init_small,
            chunks@.len() == index,
            start <= file_size,
            ranges_consecutive(chunks@, file_size),
            forall|i: int| 0 <= i < chunks@.len() ==> full_or_last(#[trigger] chunks@[i], small_chunk_size, file_size),
            chunks@.len() == 0 ==> start == 0,
            chunks@.len() > 0 ==> start == chunks@[chunks@.len() - 1].end + 1,
            index < init_small ==> start == file_size,
        decreases init_small - n,
    {
        if start >= file_size {
            break;
        }
        let candidate = start + small_chunk_size - 1;
        let end = if candidate <= file_size - 1 { candidate } else { file_size - 1 };
        push_range(&mut chunks, index, start, end);
        start = end + 1;
        index = index + 1;
        n = n + 1;
    }
    while start < file_size && index < max_chunks
        invariant
            layout_supported(file_size, ChunkStrategy::Aggressive { chunk_size, max_chunks }),
            init_small == initial_small_chunks(max_chunks),
            small_chunk_size == chunk_size / 2,
            start <= file_size,
            index <= max_chunks || index <= init_small,
            chunks@.len() == index,
            index >= init_small || start == file_size,
            ranges_consecutive(chunks@, file_size),
            forall|i: int|
                0 <= i < chunks@.len() ==> full_or_last(
                    #[trigger] chunks@[i],
                    if i < init_small { small_chunk_size } else { chunk_size },
                    file_size,
                ),
            chunks@.len() == 0 ==> start == 0,
            chunks@.len() > 0 ==> start == chunks@[chunks@.len() - 1].end + 1,
        decreases file_size - start,
    {
        let candidate = start + chunk_size - 1;
        let end = if candidate <= file_size - 1 { candidate } else { file_size - 1 };
        push_range(&mut chunks, index, start, end);
        start = end + 1;
        index = index + 1;
    }
    chunks
}

/// Generate dynamic chunks: fixed chunks sized so that about
/// `min(ceil(file_size / base_size), max_chunks)` of them cover the file
fn generate_dynamic_chunks(file_size: u64, base_size: u64, max_chunks: u32) -> (chunks: Vec<ChunkRange>)
    requires
        layout_supported(file_size, ChunkStrategy::Dynamic { base_size, max_chunks }),
    ensures
        fixed_layout(chunks@, file_size, (file_size / dynamic_chunk_count(file_size, base_size, max_chunks) as u64) as u64),
{
    let needed: u64 = if file_size % base_size == 0 {
        file_size / base_size
    } else {
        assert(file_size / base_size < 0xffff_ffff_ffff_ffffu64) by (nonlinear_arith)
            requires base_size >= 2;
        file_size / base_size + 1
    };
    let optimal_chunks: u32 = if needed <= max_chunks as u64 { needed as u32 } else { max_chunks };
    assert(needed >= 1) by (nonlinear_arith)
        requires file_size > 0, base_size > 0, needed as int == (if file_size % base_size == 0 { (file_size / base_size) as int } else { file_size / base_size + 1 });
    let actual_chunk_size = file_size / optimal_chunks as u64;
    generate_fixed_chunks(file_size, actual_chunk_size)
}

/// Generate chunk ranges for a file
pub fn generate_chunks(file_size: u64, strategy: &ChunkStrategy) -> (chunks: Vec<ChunkRange>)
    requires
        layout_supported(file_size, *strategy),
    ensures
        strategy_layout(chunks@, file_size, *strategy),
{
    match strategy {
        ChunkStrategy::Single => {
            let mut v: Vec<ChunkRange> = Vec::new();
            v.push(ChunkRange { index: 0, start: 0, end: file_size - 1, size: file_size });
            assert(v@ =~= seq![ChunkRange { index: 0, start: 0, end: (file_size - 1) as u64, size: file_size }]);
            v
        },
        ChunkStrategy::Fixed { chunk_size } => generate_fixed_chunks(file_size, *chunk_size),
        ChunkStrategy::Dynamic { base_size, max_chunks } => generate_dynamic_chunks(file_size, *base_size, *max_chunks),
        ChunkStrategy::Aggressive { chunk_size, max_chunks } => generate_aggressive_chunks(file_size, *chunk_size, *max_chunks),
    }
}

// ---------------------------------------------------------------------------
// Laws of the layouts
// ---------------------------------------------------------------------------

/// The number of bytes the ranges span together.
pub open spec fn total_size(c: Seq<ChunkRange>) -> int
    decreases c.len(),
{
    if c.len() == 0 {
        0
    } else {
        total_size(c.drop_last()) + c[c.len() - 1].size
    }
}

/// Byte `b` lies in range number `i`.
pub open spec fn covers(c: Seq<ChunkRange>, i: int, b: int) -> bool {
    0 <= i < c.len() && c[i].start <= b <= c[i].end
}

/// Byte `b` lies in one of the ranges.
pub open spec fn byte_covered(c: Seq<ChunkRange>, b: int) -> bool {
    exists|i: int| covers(c, i, b)
}

proof fn lemma_consecutive_drop_last(c: Seq<ChunkRange>, file_size: u64)
    requires
        ranges_consecutive(c, file_size),
        c.len() > 0,
    ensures
        ranges_consecutive(c.drop_last(), file_size),
{
    let d = c.drop_last();
    assert forall|i: int| 0 < i < d.len() implies (#[trigger] d[i]).start == d[i - 1].end + 1 by {
        assert(d[i] == c[i] && d[i - 1] == c[i - 1]);
        assert(c[i].start == c[i - 1].end + 1);
    }
    assert forall|i: int| 0 <= i < d.len() implies (#[trigger] d[i]).index == i by {
        assert(d[i] == c[i]);
        assert(c[i].index == i);
    }
}

proof fn lemma_consecutive_ordered(c: Seq<ChunkRange>, file_size: u64, i: int, j: int)
    requires
        ranges_consecutive(c, file_size),
        0 <= i < j < c.len(),
    ensures
        c[i].end < c[j].start,
    decreases j - i,
{
    assert(c[j].start == c[j - 1].end + 1);
    if j > i + 1 {
        lemma_consecutive_ordered(c, file_size, i, j - 1);
        assert(c[j - 1].start <= c[j - 1].end);
    }
}

proof fn lemma_consecutive_total(c: Seq<ChunkRange>, file_size: u64)
    requires
        ranges_consecutive(c, file_size),
        c.len() > 0,
    ensures
        total_size(c) == c[c.len() - 1].end + 1,
    decreases c.len(),
{
    let l = c.len() - 1;
    assert(c[l].size == c[l].end - c[l].start + 1);
    if l > 0 {
        lemma_consecutive_drop_last(c, file_size);
        lemma_consecutive_total(c.drop_last(), file_size);
        assert(c.drop_last()[l - 1] == c[l - 1]);
        assert(c[l].start == c[l - 1].end + 1);
    } else {
        assert(c.drop_last().len() == 0);
        assert(total_size(c.drop_last()) == 0);
        assert(c[0].start == 0);
    }
    assert(total_size(c) == total_size(c.drop_last()) + c[l].size);
}

proof fn lemma_consecutive_covers(c: Seq<ChunkRange>, file_size: u64, b: int)
    requires
        ranges_consecutive(c, file_size),
        c.len() > 0,
        0 <= b <= c[c.len() - 1].end,
    ensures
        exists|i: int| covers(c, i, b),
    decreases c.len(),
{
    let l = c.len() - 1;
    if b >= c[l].start {
        assert(covers(c, l, b));
    } else {
        assert(l > 0);
        assert(c[l].start == c[l - 1].end + 1);
        lemma_consecutive_drop_last(c, file_size);
        assert(c.drop_last()[l - 1] == c[l - 1]);
        lemma_consecutive_covers(c.drop_last(), file_size, b);
        let i = choose|i: int| covers(c.drop_last(), i, b);
        assert(c.drop_last()[i] == c[i]);
        assert(covers(c, i, b));
    }
}

/// Every layout that `generate_chunks` produces is a run of ranges without
/// overlap or gap: no two ranges share a byte, each byte from 0 to the end of
/// the last range lies in one of them, and their sizes add up to that span.
/// Every strategy but the aggressive one covers the whole file, and so does
/// an aggressive layout that ends at the end of the file.
pub proof fn lemma_layout_partitions_file(c: Seq<ChunkRange>, file_size: u64, strategy: ChunkStrategy)
    requires
        layout_supported(file_size, strategy),
        strategy_layout(c, file_size, strategy),
    ensures
        forall|i: int, j: int| 0 <= i < j < c.len() ==> c[i].end < c[j].start,
        c.len() > 0 ==> total_size(c) == c[c.len() - 1].end + 1,
        c.len() > 0 ==> forall|b: int| 0 <= b <= c[c.len() - 1].end ==> #[trigger] byte_covered(c, b),
        !(strategy is Aggressive) ==> total_size(c) == file_size,
        !(strategy is Aggressive) ==> forall|b: int| 0 <= b < file_size ==> #[trigger] byte_covered(c, b),
{
    assert(ranges_consecutive(c, file_size)) by {
        if strategy is Single {
            assert(c[0].index == 0);
        }
    }
    assert forall|i: int, j: int| 0 <= i < j < c.len() implies c[i].end < c[j].start by {
        lemma_consecutive_ordered(c, file_size, i, j);
    }
    if c.len() > 0 {
        lemma_consecutive_total(c, file_size);
        assert forall|b: int| 0 <= b <= c[c.len() - 1].end implies #[trigger] byte_covered(c, b) by {
            lemma_consecutive_covers(c, file_size, b);
        }
    }
    if !(strategy is Aggressive) {
        if c.len() == 0 {
            assert(file_size == 0);
        } else {
            assert(c[c.len() - 1].end + 1 == file_size);
        }
    }
}

/// Recent performance moves the chunk size against what went wrong: with a
/// success rate below 80% the size is never larger than without history,
/// stays at least the minimum, and (where the file's size-based chunk is not
/// above the maximum) is at most half the size without history unless it is
/// the minimum; with a rate above 95% at over 5MB/s it is never smaller than
/// without history; otherwise history changes nothing.
pub proof fn lemma_performance_adjusts_chunk_size(sc: SmartChunking, file_size: u64, p: RecentPerformance)
    requires
        sc.well_formed(),
    ensures
        rate_below_80(p) ==> sc.spec_optimal_chunk_size(file_size, Some(p)) <= sc.spec_optimal_chunk_size(file_size, None),
        rate_below_80(p) ==> sc.spec_optimal_chunk_size(file_size, Some(p)) >= sc.min_chunk_size,
        rate_below_80(p) && sc.size_adjusted(file_size) <= sc.max_chunk_size ==> (
            sc.spec_optimal_chunk_size(file_size, Some(p)) == sc.min_chunk_size
            || 2 * sc.spec_optimal_chunk_size(file_size, Some(p)) <= sc.spec_optimal_chunk_size(file_size, None)),
        !rate_below_80(p) && rate_above_95(p) && p.avg_speed_ceil > 5 * MIB
            ==> sc.spec_optimal_chunk_size(file_size, Some(p)) >= sc.spec_optimal_chunk_size(file_size, None),
        !rate_below_80(p) && !(rate_above_95(p) && p.avg_speed_ceil > 5 * MIB)
            ==> sc.spec_optimal_chunk_size(file_size, Some(p)) == sc.spec_optimal_chunk_size(file_size, None),
{
}

/// For a file between 1MB and 50MB on a server with ranges, the fixed chunk
/// size chosen after a success rate below 80% is never larger than the one
/// chosen without history.
pub proof fn lemma_failures_never_enlarge_fixed_chunks(sc: SmartChunking, file_size: u64, p: RecentPerformance)
    requires
        sc.well_formed(),
        rate_below_80(p),
        MIB < file_size <= 50 * MIB,
    ensures
        sc.spec_strategy(file_size, true, Some(p)) matches ChunkStrategy::Fixed { chunk_size: with_history }
            && sc.spec_strategy(file_size, true, None) matches ChunkStrategy::Fixed { chunk_size: without }
            && with_history <= without,
{
    lemma_performance_adjusts_chunk_size(sc, file_size, p);
}

/// Without history the chunk size follows the file size: it lies between
/// the configured minimum and maximum; a file under 10MB gets no more than a
/// quarter of itself (or the minimum) and no more than the configured
/// optimal size; a file over 100MB gets at least 5MB and at least the
/// optimal size (where the maximum allows); a file in between gets the
/// optimal size, clamped.
pub proof fn lemma_chunk_size_follows_file_size(sc: SmartChunking, file_size: u64)
    requires
        sc.well_formed(),
    ensures
        sc.min_chunk_size <= sc.spec_optimal_chunk_size(file_size, None) <= sc.max_chunk_size,
        file_size < 10 * MIB ==> sc.spec_optimal_chunk_size(file_size, None) <= max_u64(file_size / 4, sc.min_chunk_size),
        file_size < 10 * MIB ==> sc.spec_optimal_chunk_size(file_size, None) <= max_u64(sc.optimal_chunk_size, sc.min_chunk_size),
        file_size > 100 * MIB ==> sc.spec_optimal_chunk_size(file_size, None) == min_u64(
            max_u64(max_u64(sc.optimal_chunk_size, (5 * MIB) as u64), sc.min_chunk_size), sc.max_chunk_size),
        10 * MIB <= file_size <= 100 * MIB ==> sc.spec_optimal_chunk_size(file_size, None)
            == clamp_u64(sc.optimal_chunk_size, sc.min_chunk_size, sc.max_chunk_size),
{
}

} // verus!
