//! Network conditions and the download parameters recommended for each.
//!
//! Classifying a measured speed, averaging samples and weighing trends are
//! floating-point computations and are done by the application; the
//! integer rules stand here.
use vstd::prelude::*;

verus! {

/// Network condition assessment
#[derive(Debug, Clone, Copy, PartialEq, Eq, Structural)]
pub enum NetworkCondition {
    /// Excellent: > 50 MB/s
    Excellent,
    /// Good: 10-50 MB/s
    Good,
    /// Fair: 1-10 MB/s
    Fair,
    /// Poor: 100KB/s - 1MB/s
    Poor,
    /// Very poor: < 100KB/s
    VeryPoor,
}

/// The concurrency recommended for a condition.
pub open spec fn spec_recommended_concurrency(c: NetworkCondition) -> u32 {
    match c {
        NetworkCondition::Excellent => 64,
        NetworkCondition::Good => 32,
        NetworkCondition::Fair => 16,
        NetworkCondition::Poor => 8,
        NetworkCondition::VeryPoor => 4,
    }
}

/// The chunk size recommended for a condition.
pub open spec fn spec_recommended_chunk_size(c: NetworkCondition) -> u64 {
    match c {
        NetworkCondition::Excellent => 8388608,
        NetworkCondition::Good => 4194304,
        NetworkCondition::Fair => 2097152,
        NetworkCondition::Poor => 1048576,
        NetworkCondition::VeryPoor => 524288,
    }
}

impl NetworkCondition {
    /// Get recommended concurrent connections for this condition
    pub fn recommended_concurrency(&self) -> (n: u32)
        ensures
            n == spec_recommended_concurrency(*self),
    {
        match self {
            NetworkCondition::Excellent => 64,
            NetworkCondition::Good => 32,
            NetworkCondition::Fair => 16,
            NetworkCondition::Poor => 8,
            NetworkCondition::VeryPoor => 4,
        }
    }

    /// Get recommended chunk size for this condition
    pub fn recommended_chunk_size(&self) -> (n: u64)
        ensures
            n == spec_recommended_chunk_size(*self),
    {
        match self {
            NetworkCondition::Excellent => 8 * 1024 * 1024,
            NetworkCondition::Good => 4 * 1024 * 1024,
            NetworkCondition::Fair => 2 * 1024 * 1024,
            NetworkCondition::Poor => 1024 * 1024,
            NetworkCondition::VeryPoor => 512 * 1024,
        }
    }
}

/// The better the condition, the more connections and the larger the
/// chunks that are recommended.
pub proof fn lemma_recommendations_monotone()
    ensures
        spec_recommended_concurrency(NetworkCondition::VeryPoor) < spec_recommended_concurrency(NetworkCondition::Poor),
        spec_recommended_concurrency(NetworkCondition::Poor) < spec_recommended_concurrency(NetworkCondition::Fair),
        spec_recommended_concurrency(NetworkCondition::Fair) < spec_recommended_concurrency(NetworkCondition::Good),
        spec_recommended_concurrency(NetworkCondition::Good) < spec_recommended_concurrency(NetworkCondition::Excellent),
        spec_recommended_chunk_size(NetworkCondition::VeryPoor) < spec_recommended_chunk_size(NetworkCondition::Poor),
        spec_recommended_chunk_size(NetworkCondition::Poor) < spec_recommended_chunk_size(NetworkCondition::Fair),
        spec_recommended_chunk_size(NetworkCondition::Fair) < spec_recommended_chunk_size(NetworkCondition::Good),
        spec_recommended_chunk_size(NetworkCondition::Good) < spec_recommended_chunk_size(NetworkCondition::Excellent),
{
}

/// Speed trend analysis
#[derive(Debug, Clone, Copy, PartialEq, Eq, Structural)]
pub enum SpeedTrend {
    Improving,
    Stable,
    Declining,
}

/// The chunk size that blends the best-performing chunk size seen with the
/// one recommended for the condition: their mean, kept between 128 KiB and
/// 16 MiB.
pub fn blend_chunk_size(best_chunk_size: u64, condition: NetworkCondition) -> (c: u64)
    requires
        best_chunk_size + spec_recommended_chunk_size(condition) <= u64::MAX,
    ensures
        ({
            let mean = (best_chunk_size + spec_recommended_chunk_size(condition)) / 2;
            c == if mean < 131072 { 131072 } else if mean > 16777216 { 16777216 } else { mean }
        }),
{
    let recommended = condition.recommended_chunk_size();
    let blended = (best_chunk_size + recommended) / 2;
    if blended < 128 * 1024 {
        128 * 1024
    } else if blended > 16 * 1024 * 1024 {
        16 * 1024 * 1024
    } else {
        blended
    }
}

/// A concurrency kept between 4 and 128 connections.
pub fn clamp_concurrency(n: u32) -> (c: u32)
    ensures
        c == if n < 4 { 4 } else if n > 128 { 128 } else { n },
{
    if n < 4 {
        4
    } else if n > 128 {
        128
    } else {
        n
    }
}

} // verus!
