//! The decisions of the concurrent download engine: how a download (or the
//! rest of a resumed one) is cut into ranges, whether it is chunked at all,
//! and what happens after a failed attempt (retry with backoff, next mirror,
//! or give up).
use vstd::prelude::*;
use vstd::arithmetic::power2::{pow2, lemma_pow2_unfold, lemma2_to64, lemma_pow2_strictly_increases};
use crate::constants::MAX_URLS_TO_TRY;
use crate::error::{TurboCdnError, spec_is_retryable, spec_status_code};
use crate::smart_chunking::{MIB, min_u64, max_u64};

verus! {

/// Chunk information for concurrent downloads
#[derive(Debug, Clone, Copy, PartialEq, Eq, Structural)]
pub struct ChunkInfo {
    /// Start byte position
    pub start: u64,
    /// End byte position (inclusive)
    pub end: u64,
    /// Chunk index
    pub index: usize,
}

/// The chunking settings of a concurrent downloader.
#[derive(Debug, Clone, Copy, PartialEq, Eq, Structural)]
pub struct ChunkSettings {
    /// Maximum number of chunks downloaded at once
    pub max_concurrent_chunks: usize,
    /// Configured chunk size
    pub initial_chunk_size: u64,
    /// Smallest chunk size
    pub min_chunk_size: u64,
    /// Largest chunk size
    pub max_chunk_size: u64,
    /// Whether the chunk size adapts to file size and speed
    pub adaptive_chunking_enabled: bool,
    /// Speed (bytes per second) that separates fast from slow connections
    pub speed_threshold_bytes_per_sec: u64,
}

impl ChunkSettings {
    /// The chunk size for a file of `file_size` bytes before any speed
    /// adjustment: half the configured size above 10MB, a quarter above 1MB,
    /// the minimum otherwise.
    pub open spec fn size_based_chunk(&self, file_size: u64) -> u64 {
        if file_size > 100 * MIB {
            (self.initial_chunk_size / 2) as u64
        } else if file_size > 10 * MIB {
            (self.initial_chunk_size / 2) as u64
        } else if file_size > MIB {
            (self.initial_chunk_size / 4) as u64
        } else {
            self.min_chunk_size
        }
    }

    /// The chunk size for `file_size` bytes at the observed speed: slow
    /// connections (under half the threshold) get half the size.
    pub open spec fn spec_optimal_chunk_size(&self, file_size: u64, current_speed: Option<u64>) -> u64 {
        let sb = self.size_based_chunk(file_size);
        match current_speed {
            Some(speed) => {
                let t = self.speed_threshold_bytes_per_sec;
                if speed > t * 4 {
                    sb
                } else if speed > t * 2 {
                    sb
                } else if speed < t / 4 {
                    (sb / 2) as u64
                } else if speed < t / 2 {
                    (sb / 2) as u64
                } else {
                    sb
                }
            },
            None => sb,
        }
    }

    /// The chunk size used for `remaining` bytes: the optimal (or configured)
    /// size raised to the minimum, then capped at the maximum.
    pub open spec fn spec_chunk_size(&self, remaining: u64, current_speed: Option<u64>) -> u64 {
        let optimal = if self.adaptive_chunking_enabled {
            self.spec_optimal_chunk_size(remaining, current_speed)
        } else {
            self.initial_chunk_size
        };
        min_u64(max_u64(optimal, self.min_chunk_size), self.max_chunk_size)
    }

    /// The number of chunks for `remaining` bytes: as many chunk-size pieces
    /// as fit (at least one), at most `max_concurrent_chunks`.
    pub open spec fn spec_chunk_count(&self, remaining: u64, current_speed: Option<u64>) -> u64 {
        let ideal = max_u64(remaining / self.spec_chunk_size(remaining, current_speed), 1);
        min_u64(ideal, self.max_concurrent_chunks as u64)
    }

    /// What cutting the range `start_offset..total_size` asks: the offset
    /// within the file, a positive chunk size and chunk count, and a speed
    /// threshold that can be multiplied by four.
    pub open spec fn chunking_supported(&self, start_offset: u64, total_size: u64, current_speed: Option<u64>) -> bool {
        let remaining = (total_size - start_offset) as u64;
        &&& start_offset <= total_size
        &&& self.max_concurrent_chunks > 0
        &&& self.spec_chunk_size(remaining, current_speed) > 0
        &&& (self.adaptive_chunking_enabled && current_speed is Some) ==> self.speed_threshold_bytes_per_sec <= u64::MAX / 4
    }

    /// Calculate optimal chunk size based on file size and current speed
    pub fn calculate_optimal_chunk_size(&self, file_size: u64, current_speed: Option<u64>) -> (r: u64)
        requires
            current_speed is Some ==> self.speed_threshold_bytes_per_sec <= u64::MAX / 4,
        ensures
            r == self.spec_optimal_chunk_size(file_size, current_speed),
    {
        let size_based_chunk = if file_size > 100 * MIB {
            self.initial_chunk_size / 2
        } else if file_size > 10 * MIB {
            self.initial_chunk_size / 2
        } else if file_size > MIB {
            self.initial_chunk_size / 4
        } else {
            self.min_chunk_size
        };
        match current_speed {
            Some(speed) => {
                let t = self.speed_threshold_bytes_per_sec;
                if speed > t * 4 {
                    size_based_chunk
                } else if speed > t * 2 {
                    size_based_chunk
                } else if speed < t / 4 {
                    size_based_chunk / 2
                } else if speed < t / 2 {
                    size_based_chunk / 2
                } else {
                    size_based_chunk
                }
            },
            None => size_based_chunk,
        }
    }

    /// Calculate optimal chunks for a download starting at `start_offset`
    pub fn calculate_chunks(&self, start_offset: u64, total_size: u64) -> (chunks: Vec<ChunkInfo>)
        requires
            self.chunking_supported(start_offset, total_size, None),
        ensures
            self.adaptive_layout(chunks@, start_offset, total_size, None),
    {
        self.calculate_adaptive_chunks(start_offset, total_size, None)
    }

    /// The chunks cut from `start_offset..total_size`: none when nothing
    /// remains; otherwise exactly `spec_chunk_count` consecutive chunks from
    /// `start_offset`, each of `remaining / count` bytes except the last,
    /// which runs to the end of the file.
    pub open spec fn adaptive_layout(&self, c: Seq<ChunkInfo>, start_offset: u64, total_size: u64, current_speed: Option<u64>) -> bool {
        let remaining = (total_size - start_offset) as u64;
        let count = self.spec_chunk_count(remaining, current_speed);
        let adjusted = remaining / count;
        if remaining == 0 {
            c.len() == 0
        } else {
            &&& c.len() == count
            &&& c[0].start == start_offset
            &&& c[c.len() - 1].end == total_size - 1
            &&& forall|i: int|
                0 <= i < c.len() ==> {
                    &&& (#[trigger] c[i]).index == i
                    &&& c[i].start <= c[i].end
                    &&& (i < c.len() - 1 ==> c[i].end - c[i].start + 1 == adjusted)
                }
            &&& forall|i: int| 0 < i < c.len() ==> (#[trigger] c[i]).start == c[i - 1].end + 1
        }
    }

    /// Calculate adaptive chunks based on current download speed
    pub fn calculate_adaptive_chunks(&self, start_offset: u64, total_size: u64, current_speed: Option<u64>) -> (chunks: Vec<ChunkInfo>)
        requires
            self.chunking_supported(start_offset, total_size, current_speed),
        ensures
            self.adaptive_layout(chunks@, start_offset, total_size, current_speed),
    {
        let remaining_size = total_size - start_offset;
        let optimal_chunk_size = if self.adaptive_chunking_enabled {
            self.calculate_optimal_chunk_size(remaining_size, current_speed)
        } else {
            self.initial_chunk_size
        };
        let raised = if optimal_chunk_size >= self.min_chunk_size { optimal_chunk_size } else { self.min_chunk_size };
        let chunk_size = if raised <= self.max_chunk_size { raised } else { self.max_chunk_size };
        assert(chunk_size == self.spec_chunk_size(remaining_size, current_speed));
        let by_size = remaining_size / chunk_size;
        let ideal_chunk_count = if by_size >= 1 { by_size } else { 1 };
        let max_chunks = self.max_concurrent_chunks as u64;
        let actual_chunk_count = if ideal_chunk_count <= max_chunks { ideal_chunk_count } else { max_chunks };
        assert(actual_chunk_count == self.spec_chunk_count(remaining_size, current_speed));
        let adjusted_chunk_size = remaining_size / actual_chunk_count;
        proof {
            assert(by_size <= remaining_size) by (nonlinear_arith)
                requires chunk_size >= 1, by_size == remaining_size / chunk_size;
            assert(actual_chunk_count * adjusted_chunk_size <= remaining_size) by (nonlinear_arith)
                requires actual_chunk_count >= 1, adjusted_chunk_size == remaining_size / actual_chunk_count;
            if remaining_size > 0 {
                assert(adjusted_chunk_size >= 1) by (nonlinear_arith)
                    requires actual_chunk_count >= 1, actual_chunk_count <= remaining_size,
                        adjusted_chunk_size == remaining_size / actual_chunk_count;
            }
        }
        let mut chunks: Vec<ChunkInfo> = Vec::new();
        let mut current_start = start_offset;
        let mut index: u64 = 0;
        while current_start < total_size && index < actual_chunk_count
            invariant
                start_offset <= total_size,
                remaining_size == total_size - start_offset,
                1 <= actual_chunk_count <= max_chunks,
                max_chunks == self.max_concurrent_chunks,
                actual_chunk_count * adjusted_chunk_size <= remaining_size,
                remaining_size > 0 ==> adjusted_chunk_size >= 1,
                index <= actual_chunk_count,
                chunks@.len() == index,
                index < actual_chunk_count ==> current_start == start_offset + index * adjusted_chunk_size,
                index == actual_chunk_count ==> current_start == total_size,
                (index < actual_chunk_count && remaining_size > 0) ==> current_start < total_size,
                index > 0 ==> current_start == chunks@[index - 1].end + 1,
                index > 0 ==> chunks@[0].start == start_offset,
                forall|i: int|
                    0 <= i < chunks@.len() ==> {
                        &&& (#[trigger] chunks@[i]).index == i
                        &&& chunks@[i].start <= chunks@[i].end
                        &&& chunks@[i].end < total_size
                        &&& (i < actual_chunk_count - 1 ==> chunks@[i].end - chunks@[i].start + 1 == adjusted_chunk_size)
                        &&& (i == actual_chunk_count - 1 ==> chunks@[i].end == total_size - 1)
                    },
                forall|i: int| 0 < i < chunks@.len() ==> (#[trigger] chunks@[i]).start == chunks@[i - 1].end + 1,
            decreases actual_chunk_count - index,
        {
            let chunk_end = if index == actual_chunk_count - 1 {
                total_size - 1
            } else {
                assert(index * adjusted_chunk_size + adjusted_chunk_size <= actual_chunk_count * adjusted_chunk_size)
                    by (nonlinear_arith)
                    requires index + 1 < actual_chunk_count;
                let candidate = current_start + adjusted_chunk_size - 1;
                if candidate <= total_size - 1 { candidate } else { total_size - 1 }
            };
            proof {
                if index < actual_chunk_count - 1 {
                    assert(chunk_end == current_start + adjusted_chunk_size - 1);
                }
            }
            proof {
                if index + 1 < actual_chunk_count {
                    assert((index + 1) * adjusted_chunk_size + adjusted_chunk_size <= actual_chunk_count * adjusted_chunk_size)
                        by (nonlinear_arith)
                        requires index + 2 <= actual_chunk_count;
                }
            }
            chunks.push(ChunkInfo { start: current_start, end: chunk_end, index: index as usize });
            assert(start_offset + index * adjusted_chunk_size + adjusted_chunk_size == start_offset + (index + 1) * adjusted_chunk_size)
                by (nonlinear_arith);
            current_start = chunk_end + 1;
            index = index + 1;
        }
        proof {
            if remaining_size > 0 {
                assert(index == actual_chunk_count);
            }
        }
        chunks
    }

    /// Whether a download of `total_size` bytes, of which `existing_size`
    /// are already on disk, is already complete.
    pub fn already_complete(&self, existing_size: u64, total_size: u64) -> (r: bool)
        ensures
            r == (existing_size == total_size),
    {
        existing_size == total_size
    }

    /// Whether a file is downloaded in concurrent chunks: the server must
    /// accept range requests and the file must be larger than two minimum
    /// chunks.
    pub fn use_chunked_download(&self, supports_ranges: bool, total_size: u64) -> (r: bool)
        requires
            self.min_chunk_size <= u64::MAX / 2,
        ensures
            r == (supports_ranges && total_size > self.min_chunk_size * 2),
    {
        supports_ranges && total_size > self.min_chunk_size * 2
    }
}

/// What the download engine does next.
#[derive(Debug, Clone, Copy, PartialEq, Eq, Structural)]
pub enum DownloadStep {
    /// Try the same URL again as attempt `attempt`, after waiting `delay_secs`
    Retry { attempt: usize, delay_secs: u64 },
    /// Move on to the URL at `url_index`, starting with attempt 0
    NextUrl { url_index: usize },
    /// Every selected URL failed: report "All download URLs failed after retries"
    GiveUp,
}

/// The number of URLs tried for a download: all candidates, at most eight.
pub fn urls_to_try(candidate_count: usize) -> (r: usize)
    ensures
        r == min_u64(candidate_count as u64, MAX_URLS_TO_TRY as u64),
{
    if candidate_count <= MAX_URLS_TO_TRY { candidate_count } else { MAX_URLS_TO_TRY }
}

/// The check before the first attempt: a download with no URL to try fails
/// at once with "All download URLs failed", before any request.
pub fn check_urls_selected(url_count: usize) -> (r: Result<(), TurboCdnError>)
    ensures
        r is Ok <==> url_count > 0,
        r matches Err(e) ==> (e matches TurboCdnError::Download { message } && message@ == "All download URLs failed"@),
{
    if url_count == 0 {
        return Err(TurboCdnError::download("All download URLs failed"));
    }
    Ok(())
}

/// The backoff before retry attempt `retry_attempt` (counting from 1):
/// `2^(retry_attempt - 1)` seconds.
pub fn retry_delay_secs(retry_attempt: usize) -> (r: u64)
    requires
        1 <= retry_attempt <= 64,
    ensures
        r == pow2((retry_attempt - 1) as nat),
{
    let mut r: u64 = 1;
    let mut i: usize = 1;
    proof {
        lemma2_to64();
    }
    while i < retry_attempt
        invariant
            1 <= i <= retry_attempt <= 64,
            r == pow2((i - 1) as nat),
        decreases retry_attempt - i,
    {
        proof {
            lemma_pow2_unfold(i as nat);
            lemma2_to64();
            lemma_pow2_strictly_increases(i as nat, 64);
            assert(r * 2 == pow2(i as nat));
        }
        r = r * 2;
        i = i + 1;
    }
    r
}

/// The step after attempt `retry_attempt` on URL `url_index` of `url_count`
/// failed with `error`, with `max_retries` retries allowed per URL: a 404,
/// an error that is not worth retrying, or the last allowed attempt moves on
/// to the next URL (or gives up after the last URL); any other failure is
/// retried after the exponential backoff.
pub open spec fn spec_step_after_failure(url_index: usize, url_count: usize, retry_attempt: usize, max_retries: usize, error: TurboCdnError) -> DownloadStep {
    let leave_url = spec_status_code(error) == Some(404u16) || !spec_is_retryable(error) || retry_attempt == max_retries;
    if leave_url {
        if url_index + 1 == url_count {
            DownloadStep::GiveUp
        } else {
            DownloadStep::NextUrl { url_index: (url_index + 1) as usize }
        }
    } else {
        DownloadStep::Retry { attempt: (retry_attempt + 1) as usize, delay_secs: pow2(retry_attempt as nat) as u64 }
    }
}

/// After a failure the engine only moves forward: a retry of the same URL
/// counts one more attempt and stays within the allowed retries, a move goes
/// to the next URL, and it gives up only after the last URL. So a download
/// makes at most `(max_retries + 1) * url_count` attempts.
pub proof fn lemma_failure_steps_advance(url_index: usize, url_count: usize, retry_attempt: usize, max_retries: usize, error: TurboCdnError)
    requires
        url_index < url_count,
        retry_attempt <= max_retries,
    ensures
        match spec_step_after_failure(url_index, url_count, retry_attempt, max_retries, error) {
            DownloadStep::Retry { attempt, .. } => attempt == retry_attempt + 1 && attempt <= max_retries,
            DownloadStep::NextUrl { url_index: next } => next == url_index + 1 && next < url_count,
            DownloadStep::GiveUp => url_index + 1 == url_count,
        },
{
}

/// Where a download stands after the failed attempts `failures`, in order:
/// the URL index and attempt number of the next attempt, or `None` once the
/// engine has given up. It starts at URL 0, attempt 0.
pub open spec fn state_after_failures(url_count: usize, max_retries: usize, failures: Seq<TurboCdnError>) -> Option<(usize, usize)>
    decreases failures.len(),
{
    if failures.len() == 0 {
        Some((0usize, 0usize))
    } else {
        match state_after_failures(url_count, max_retries, failures.drop_last()) {
            None => None,
            Some((u, r)) => match spec_step_after_failure(u, url_count, r, max_retries, failures.last()) {
                DownloadStep::Retry { attempt, .. } => Some((u, attempt)),
                DownloadStep::NextUrl { url_index } => Some((url_index, 0usize)),
                DownloadStep::GiveUp => None,
            },
        }
    }
}

/// A whole download makes at most `(max_retries + 1)` attempts per URL: while
/// it goes on, it stands at a valid URL and attempt, and the failures so far
/// number at most the attempts that this position allows; after
/// `url_count * (max_retries + 1)` failures it has given up.
pub proof fn lemma_download_attempts_bounded(url_count: usize, max_retries: usize, failures: Seq<TurboCdnError>)
    requires
        0 < url_count,
    ensures
        state_after_failures(url_count, max_retries, failures) matches Some((u, r)) ==> u < url_count
            && r <= max_retries && failures.len() <= u * (max_retries + 1) + r,
        failures.len() >= url_count * (max_retries + 1) ==> state_after_failures(url_count, max_retries, failures) is None,
    decreases failures.len(),
{
    let m = max_retries as int;
    if failures.len() > 0 {
        let prev = failures.drop_last();
        lemma_download_attempts_bounded(url_count, max_retries, prev);
        match state_after_failures(url_count, max_retries, prev) {
            None => {},
            Some((u, r)) => {
                lemma_failure_steps_advance(u, url_count, r, max_retries, failures.last());
                let ui = u as int;
                assert((ui + 1) * (m + 1) == ui * (m + 1) + m + 1) by (nonlinear_arith);
            },
        }
    }
    match state_after_failures(url_count, max_retries, failures) {
        None => {},
        Some((u, r)) => {
            let ui = u as int;
            let c = url_count as int;
            assert(ui * (m + 1) <= (c - 1) * (m + 1)) by (nonlinear_arith)
                requires ui <= c - 1, m >= 0;
            assert((c - 1) * (m + 1) == c * (m + 1) - m - 1) by (nonlinear_arith);
        },
    }
}

/// Decide what to do after a failed download attempt.
pub fn step_after_failure(url_index: usize, url_count: usize, retry_attempt: usize, max_retries: usize, error: &TurboCdnError) -> (r: DownloadStep)
    requires
        url_index < url_count,
        retry_attempt <= max_retries < 64,
    ensures
        r == spec_step_after_failure(url_index, url_count, retry_attempt, max_retries, *error),
{
    let is_not_found = match error.status_code() {
        Some(code) => code == 404,
        None => false,
    };
    let should_skip_retries = !error.is_retryable();
    if is_not_found || should_skip_retries || retry_attempt == max_retries {
        if url_index + 1 == url_count {
            DownloadStep::GiveUp
        } else {
            DownloadStep::NextUrl { url_index: url_index + 1 }
        }
    } else {
        let delay_secs = retry_delay_secs(retry_attempt + 1);
        DownloadStep::Retry { attempt: retry_attempt + 1, delay_secs }
    }
}

/// The chunk size without a speed measurement depends only on which size
/// band the file falls in: half the configured size above 10MB, a quarter
/// above 1MB, the minimum otherwise. A measured speed under half the
/// threshold halves it; any other speed leaves it as it is.
pub proof fn lemma_chunk_size_by_file_size(s: ChunkSettings, file_size: u64, speed: u64)
    ensures
        file_size > 10 * MIB ==> s.spec_optimal_chunk_size(file_size, None) == s.initial_chunk_size / 2,
        MIB < file_size <= 10 * MIB ==> s.spec_optimal_chunk_size(file_size, None) == s.initial_chunk_size / 4,
        file_size <= MIB ==> s.spec_optimal_chunk_size(file_size, None) == s.min_chunk_size,
        speed < s.speed_threshold_bytes_per_sec / 2 ==> s.spec_optimal_chunk_size(file_size, Some(speed))
            == s.spec_optimal_chunk_size(file_size, None) / 2,
        speed >= s.speed_threshold_bytes_per_sec / 2 ==> s.spec_optimal_chunk_size(file_size, Some(speed))
            == s.spec_optimal_chunk_size(file_size, None),
{
}

} // verus!
