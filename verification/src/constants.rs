//! Centralized constants: one source of truth for the numeric limits used
//! throughout the download engine.
use vstd::prelude::*;

verus! {

/// Default retry attempts for download operations
pub const DEFAULT_RETRY_ATTEMPTS: usize = 3;

/// Default retry delay base (exponential backoff: 2^n seconds)
pub const DEFAULT_RETRY_DELAY_BASE: u64 = 2;

/// Maximum servers to track in the server tracker
pub const MAX_SERVERS_TO_TRACK: usize = 100;

/// Number of extra servers to remove when cleaning up
pub const SERVER_CLEANUP_BUFFER: usize = 10;

/// Maximum URLs to try for download redundancy
pub const MAX_URLS_TO_TRY: usize = 8;

/// Number of recent speed samples to keep for averaging
pub const RECENT_SAMPLES_SIZE: usize = 10;

/// HTTP/2 frame size for better throughput
pub const HTTP2_FRAME_SIZE: u32 = 16384;

/// Maximum redirect count
pub const MAX_REDIRECTS: usize = 10;

/// Large file threshold (100MB)
pub const LARGE_FILE_THRESHOLD: u64 = 104857600;

/// Medium file threshold (10MB)
pub const MEDIUM_FILE_THRESHOLD: u64 = 10485760;

/// Small file threshold (1MB)
pub const SMALL_FILE_THRESHOLD: u64 = 1048576;

/// Default cache TTL in seconds (1 hour)
pub const DEFAULT_CACHE_TTL_SECS: u64 = 3600;

/// Default max cache entries
pub const DEFAULT_MAX_CACHE_ENTRIES: usize = 1000;

/// The file-size thresholds are strictly ordered: small < medium < large.
pub proof fn lemma_file_thresholds_ordered()
    ensures
        SMALL_FILE_THRESHOLD < MEDIUM_FILE_THRESHOLD,
        MEDIUM_FILE_THRESHOLD < LARGE_FILE_THRESHOLD,
{
}

} // verus!
