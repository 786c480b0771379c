//! Decisions for writing large downloads through a memory map: when to map
//! a file, how large the pieces written through it are, and where a write
//! lands. Mapping and writing the file are I/O, done by the application.
use vstd::prelude::*;
use crate::error::TurboCdnError;
use crate::text::{concat2, dec_str, push_decimal};

verus! {

/// Default size above which files are memory-mapped: 10 MiB.
pub const DEFAULT_MMAP_THRESHOLD: u64 = 10 * 1024 * 1024;

/// Files from this size on (4 GiB) are never memory-mapped.
pub const MMAP_SIZE_LIMIT: u64 = 4 * 1024 * 1024 * 1024;

/// Statistics for a memory-mapped writer
#[derive(Debug, Clone)]
pub struct MmapWriterStats {
    pub file_size: u64,
    pub use_mmap: bool,
    pub chunk_size_threshold: u64,
    /// The path of the file being written
    pub path: String,
}

/// The chunk size for writing through a memory map.
pub open spec fn spec_optimal_mmap_chunk_size(file_size: u64, available_memory: Option<u64>) -> nat {
    match available_memory {
        Some(memory) => {
            let fraction = memory / 8;
            let capped = if fraction < 64 * 1024 * 1024 { fraction as nat } else { 64 * 1024 * 1024 };
            if capped > 1024 * 1024 { capped } else { 1024 * 1024 }
        },
        None => if file_size <= 1_048_576 {
            256 * 1024
        } else if file_size <= 10_485_760 {
            1024 * 1024
        } else if file_size <= 104_857_600 {
            4 * 1024 * 1024
        } else {
            64 * 1024 * 1024
        },
    }
}

/// Calculate optimal chunk size for memory-mapped operations: an eighth of
/// the available memory, between 1 MiB and 64 MiB, where it is known;
/// otherwise by file size (256 KiB up to 1 MB, 1 MiB up to 10 MB, 4 MiB up
/// to 100 MB, 64 MiB beyond).
pub fn optimal_mmap_chunk_size(file_size: u64, available_memory: Option<u64>) -> (c: u64)
    ensures
        c == spec_optimal_mmap_chunk_size(file_size, available_memory),
        1024 * 256 <= c <= 64 * 1024 * 1024,
{
    let default_chunk: u64 = 1024 * 1024;
    let max_chunk: u64 = 64 * 1024 * 1024;
    match available_memory {
        Some(memory) => {
            let fraction = memory / 8;
            let capped = if fraction < max_chunk { fraction } else { max_chunk };
            if capped > default_chunk { capped } else { default_chunk }
        },
        None => {
            if file_size <= 1_048_576 {
                default_chunk / 4
            } else if file_size <= 10_485_760 {
                default_chunk
            } else if file_size <= 104_857_600 {
                default_chunk * 4
            } else {
                max_chunk
            }
        },
    }
}

/// Check if memory mapping should be used for a file: it is larger than the
/// threshold (10 MiB by default) and smaller than 4 GiB.
pub fn should_use_mmap(file_size: u64, threshold: Option<u64>) -> (r: bool)
    ensures
        r == (file_size > (match threshold { Some(t) => t, None => DEFAULT_MMAP_THRESHOLD }) && file_size < MMAP_SIZE_LIMIT),
{
    let threshold = match threshold {
        Some(t) => t,
        None => DEFAULT_MMAP_THRESHOLD,
    };
    file_size > threshold && file_size < MMAP_SIZE_LIMIT
}

/// The bytes `[start, end)` of a mapping of `mapped_len` bytes that a write
/// of `data_len` bytes at `offset` covers, or the error for a write past the
/// end of the mapping.
pub fn check_write_bounds(offset: u64, data_len: usize, mapped_len: usize) -> (r: Result<(usize, usize), TurboCdnError>)
    requires
        offset + data_len <= usize::MAX,
    ensures
        offset + data_len <= mapped_len ==> r == Ok::<(usize, usize), TurboCdnError>((offset as usize, (offset + data_len) as usize)),
        offset + data_len > mapped_len ==> (r matches Err(TurboCdnError::Internal { message })
            && message@ == "IO error: "@ + ("Write would exceed file bounds: "@ + dec_str((offset + data_len) as nat)
                + " > "@ + dec_str(mapped_len as nat))),
{
    let start = offset as usize;
    let end = start + data_len;
    if end > mapped_len {
        let mut message = crate::text::owned("Write would exceed file bounds: ");
        push_decimal(&mut message, end as u64);
        message.append(" > ");
        push_decimal(&mut message, mapped_len as u64);
        let e = TurboCdnError::io(message.as_str());
        assert(message@ =~= "Write would exceed file bounds: "@ + dec_str((offset + data_len) as nat)
            + " > "@ + dec_str(mapped_len as nat));
        return Err(e);
    }
    Ok((start, end))
}

/// Whether a written file has the size it was created with.
pub fn integrity_holds(actual_size: u64, expected_size: u64) -> (r: bool)
    ensures
        r == (actual_size == expected_size),
{
    actual_size == expected_size
}

} // verus!
