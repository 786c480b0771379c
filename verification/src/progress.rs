//! Download progress bookkeeping: the bytes downloaded in total and per
//! chunk, and the human-readable remaining time.
//!
//! Speeds, percentages and progress bars are floating point or terminal
//! output, handled by the application around this state.
use vstd::prelude::*;
use crate::text::{dec_str, owned, push_decimal};

verus! {

/// Progress of a single chunk
#[derive(Debug, Clone, Copy, PartialEq, Eq)]
pub struct ChunkProgress {
    pub chunk_id: usize,
    pub start_byte: u64,
    pub end_byte: u64,
    pub downloaded: u64,
    pub active: bool,
}

/// The total of the bytes downloaded by the chunks.
pub open spec fn chunks_downloaded(chunks: Seq<ChunkProgress>) -> nat
    decreases chunks.len(),
{
    if chunks.len() == 0 {
        0
    } else {
        chunks_downloaded(chunks.drop_last()) + chunks.last().downloaded as nat
    }
}

/// The number of chunks being downloaded.
pub open spec fn active_count(chunks: Seq<ChunkProgress>) -> nat
    decreases chunks.len(),
{
    if chunks.len() == 0 {
        0
    } else {
        active_count(chunks.drop_last()) + if chunks.last().active { 1nat } else { 0nat }
    }
}

proof fn lemma_downloaded_update(s: Seq<ChunkProgress>, i: int, c: ChunkProgress)
    requires
        0 <= i < s.len(),
    ensures
        chunks_downloaded(s.update(i, c)) + s[i].downloaded == chunks_downloaded(s) + c.downloaded,
    decreases s.len(),
{
    if i == s.len() - 1 {
        assert(s.update(i, c).drop_last() =~= s.drop_last());
    } else {
        lemma_downloaded_update(s.drop_last(), i, c);
        assert(s.update(i, c).drop_last() =~= s.drop_last().update(i, c));
    }
}

proof fn lemma_zero_downloaded(s: Seq<ChunkProgress>)
    requires
        forall|k: int| 0 <= k < s.len() ==> (#[trigger] s[k]).downloaded == 0,
    ensures
        chunks_downloaded(s) == 0,
    decreases s.len(),
{
    if s.len() > 0 {
        lemma_zero_downloaded(s.drop_last());
    }
}

/// The integer state of a progress tracker.
#[derive(Debug, Clone)]
pub struct ProgressState {
    pub total_size: u64,
    pub downloaded_size: u64,
    pub chunks: Vec<ChunkProgress>,
}

impl ProgressState {
    /// A tracker for a download of `total_size` bytes, nothing downloaded.
    pub fn new(total_size: u64) -> (s: ProgressState)
        ensures
            s.total_size == total_size,
            s.downloaded_size == 0,
            s.chunks@.len() == 0,
    {
        ProgressState { total_size, downloaded_size: 0, chunks: Vec::new() }
    }

    /// Initialize chunk tracking: one idle chunk per byte range, numbered
    /// in order.
    pub fn init_chunks(&mut self, chunk_ranges: &Vec<(u64, u64)>)
        ensures
            final(self).total_size == old(self).total_size,
            final(self).downloaded_size == old(self).downloaded_size,
            final(self).chunks@.len() == chunk_ranges@.len(),
            forall|i: int| 0 <= i < chunk_ranges@.len() ==> #[trigger] final(self).chunks@[i] == (ChunkProgress {
                chunk_id: i as usize,
                start_byte: chunk_ranges@[i].0,
                end_byte: chunk_ranges@[i].1,
                downloaded: 0,
                active: false,
            }),
            chunks_downloaded(final(self).chunks@) == 0,
    {
        let mut chunks: Vec<ChunkProgress> = Vec::new();
        let mut i: usize = 0;
        while i < chunk_ranges.len()
            invariant
                i <= chunk_ranges@.len(),
                chunks@.len() == i,
                forall|k: int| 0 <= k < i ==> #[trigger] chunks@[k] == (ChunkProgress {
                    chunk_id: k as usize,
                    start_byte: chunk_ranges@[k].0,
                    end_byte: chunk_ranges@[k].1,
                    downloaded: 0,
                    active: false,
                }),
            decreases chunk_ranges.len() - i,
        {
            let (start, end) = chunk_ranges[i];
            chunks.push(ChunkProgress { chunk_id: i, start_byte: start, end_byte: end, downloaded: 0, active: false });
            i = i + 1;
        }
        proof { lemma_zero_downloaded(chunks@); }
        self.chunks = chunks;
    }

    /// Records that chunk `chunk_id` has downloaded `bytes_downloaded` bytes
    /// and is active; the total grows by what the chunk gained (never
    /// shrinks). An unknown chunk is ignored.
    pub fn update_chunk(&mut self, chunk_id: usize, bytes_downloaded: u64)
        requires
            chunk_id < old(self).chunks@.len() && bytes_downloaded > old(self).chunks@[chunk_id as int].downloaded
                ==> old(self).downloaded_size + (bytes_downloaded - old(self).chunks@[chunk_id as int].downloaded) <= u64::MAX,
        ensures
            final(self).total_size == old(self).total_size,
            chunk_id >= old(self).chunks@.len() ==> *final(self) == *old(self),
            chunk_id < old(self).chunks@.len() ==> {
                let c = old(self).chunks@[chunk_id as int];
                &&& final(self).chunks@ == old(self).chunks@.update(chunk_id as int,
                    ChunkProgress { downloaded: bytes_downloaded, active: true, ..c })
                &&& final(self).downloaded_size == old(self).downloaded_size
                    + if bytes_downloaded > c.downloaded { bytes_downloaded - c.downloaded } else { 0 }
            },
            old(self).downloaded_size >= chunks_downloaded(old(self).chunks@)
                ==> final(self).downloaded_size >= chunks_downloaded(final(self).chunks@),
            old(self).downloaded_size == chunks_downloaded(old(self).chunks@)
                && (chunk_id < old(self).chunks@.len() ==> bytes_downloaded >= old(self).chunks@[chunk_id as int].downloaded)
                ==> final(self).downloaded_size == chunks_downloaded(final(self).chunks@),
    {
        if chunk_id < self.chunks.len() {
            let c = self.chunks[chunk_id];
            let delta = bytes_downloaded.saturating_sub(c.downloaded);
            let updated = ChunkProgress { downloaded: bytes_downloaded, active: true, ..c };
            proof { lemma_downloaded_update(self.chunks@, chunk_id as int, updated); }
            self.chunks.set(chunk_id, updated);
            self.downloaded_size = self.downloaded_size + delta;
        }
    }

    /// Marks chunk `chunk_id` as no longer active. An unknown chunk is
    /// ignored.
    pub fn complete_chunk(&mut self, chunk_id: usize)
        ensures
            final(self).total_size == old(self).total_size,
            final(self).downloaded_size == old(self).downloaded_size,
            chunk_id >= old(self).chunks@.len() ==> final(self).chunks@ == old(self).chunks@,
            chunk_id < old(self).chunks@.len() ==> final(self).chunks@ == old(self).chunks@.update(chunk_id as int,
                ChunkProgress { active: false, ..old(self).chunks@[chunk_id as int] }),
            chunks_downloaded(final(self).chunks@) == chunks_downloaded(old(self).chunks@),
    {
        if chunk_id < self.chunks.len() {
            let c = self.chunks[chunk_id];
            let updated = ChunkProgress { active: false, ..c };
            proof { lemma_downloaded_update(self.chunks@, chunk_id as int, updated); }
            self.chunks.set(chunk_id, updated);
        }
    }

    /// Sets the total downloaded so far.
    pub fn update(&mut self, bytes_downloaded: u64)
        ensures
            *final(self) == (ProgressState { downloaded_size: bytes_downloaded, ..*old(self) }),
    {
        self.downloaded_size = bytes_downloaded;
    }

    /// Marks the download complete: everything is downloaded.
    pub fn complete(&mut self)
        ensures
            *final(self) == (ProgressState { downloaded_size: old(self).total_size, ..*old(self) }),
    {
        self.downloaded_size = self.total_size;
    }

    /// The number of active chunks.
    pub fn active_chunks(&self) -> (n: usize)
        ensures
            n == active_count(self.chunks@),
    {
        let mut n: usize = 0;
        let mut i: usize = 0;
        while i < self.chunks.len()
            invariant
                i <= self.chunks@.len(),
                n == active_count(self.chunks@.subrange(0, i as int)),
                n <= i,
            decreases self.chunks.len() - i,
        {
            assert(self.chunks@.subrange(0, i + 1).drop_last() =~= self.chunks@.subrange(0, i as int));
            if self.chunks[i].active {
                n = n + 1;
            }
            i = i + 1;
        }
        assert(self.chunks@.subrange(0, self.chunks@.len() as int) =~= self.chunks@);
        n
    }
}

/// The remaining time shown to users: hours, minutes and seconds where
/// there are hours, minutes and seconds where there are minutes, else
/// seconds; "Unknown" where no estimate exists.
pub open spec fn eta_text(eta_secs: Option<u64>) -> Seq<char> {
    match eta_secs {
        None => "Unknown"@,
        Some(t) => {
            let hours = t / 3600;
            let minutes = (t % 3600) / 60;
            let seconds = t % 60;
            if hours > 0 {
                dec_str(hours as nat) + "h "@ + dec_str(minutes as nat) + "m "@ + dec_str(seconds as nat) + "s"@
            } else if minutes > 0 {
                dec_str(minutes as nat) + "m "@ + dec_str(seconds as nat) + "s"@
            } else {
                dec_str(seconds as nat) + "s"@
            }
        },
    }
}

/// Format the estimated remaining time, given in whole seconds.
pub fn format_eta(eta_secs: Option<u64>) -> (s: String)
    ensures
        s@ == eta_text(eta_secs),
{
    match eta_secs {
        None => owned("Unknown"),
        Some(t) => {
            let hours = t / 3600;
            let minutes = (t % 3600) / 60;
            let seconds = t % 60;
            let mut s = String::new();
            if hours > 0 {
                push_decimal(&mut s, hours);
                s.append("h ");
                push_decimal(&mut s, minutes);
                s.append("m ");
                push_decimal(&mut s, seconds);
                s.append("s");
            } else if minutes > 0 {
                push_decimal(&mut s, minutes);
                s.append("m ");
                push_decimal(&mut s, seconds);
                s.append("s");
            } else {
                push_decimal(&mut s, seconds);
                s.append("s");
            }
            assert(s@ =~= eta_text(eta_secs));
            s
        },
    }
}

} // verus!
