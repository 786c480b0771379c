//! Memory usage accounting: allocation and deallocation counters, the peak
//! of live memory, the pressure level that live memory puts the download
//! engine under, and the advice that goes with it.
use vstd::prelude::*;
use crate::text::owned;

verus! {

/// Bytes in a mebibyte.
pub const BYTES_PER_MB: u64 = 1048576;

/// Memory pressure levels for adaptive behavior
#[derive(Debug, Clone, Copy, PartialEq, Eq, Structural)]
pub enum MemoryPressure {
    /// Low memory usage - normal operation
    Low,
    /// Moderate memory usage - start optimizing
    Moderate,
    /// High memory usage - aggressive optimization
    High,
    /// Critical memory usage - emergency measures
    Critical,
}

/// The recommended action text of a pressure level.
pub open spec fn action_text(p: MemoryPressure) -> Seq<char> {
    match p {
        MemoryPressure::Low => "Normal operation"@,
        MemoryPressure::Moderate => "Start cache cleanup and reduce buffer sizes"@,
        MemoryPressure::High => "Aggressive cache cleanup and limit concurrent operations"@,
        MemoryPressure::Critical => "Emergency cleanup and pause non-essential operations"@,
    }
}

impl MemoryPressure {
    /// Get recommended action for this pressure level
    pub fn recommended_action(&self) -> (r: &'static str)
        ensures
            r@ == action_text(*self),
    {
        match self {
            MemoryPressure::Low => "Normal operation",
            MemoryPressure::Moderate => "Start cache cleanup and reduce buffer sizes",
            MemoryPressure::High => "Aggressive cache cleanup and limit concurrent operations",
            MemoryPressure::Critical => "Emergency cleanup and pause non-essential operations",
        }
    }
}

/// Memory usage statistics. The average allocation size is
/// `total_allocation_size / allocation_count`.
#[derive(Debug, Clone, Copy, PartialEq, Eq, Structural)]
pub struct MemoryUsage {
    /// Current heap allocated bytes
    pub heap_allocated: u64,
    /// Current heap deallocated bytes
    pub heap_deallocated: u64,
    /// Peak memory usage during session
    pub peak_memory: u64,
    /// Current memory usage (allocated - deallocated)
    pub current_memory: u64,
    /// Number of allocations
    pub allocation_count: u64,
    /// Number of deallocations
    pub deallocation_count: u64,
    /// Total size of all allocations
    pub total_allocation_size: u64,
}

impl MemoryUsage {
    /// Check if memory usage is above `threshold_mb` megabytes
    pub fn is_high_usage(&self, threshold_mb: u64) -> (r: bool)
        requires
            threshold_mb * BYTES_PER_MB <= u64::MAX,
        ensures
            r == (self.current_memory > threshold_mb * BYTES_PER_MB),
    {
        self.current_memory > threshold_mb * BYTES_PER_MB
    }
}

/// `a - b`, or 0 when `b` exceeds `a`.
pub open spec fn sat_sub(a: u64, b: u64) -> u64 {
    if a >= b { (a - b) as u64 } else { 0 }
}

/// `a + b` modulo 2^64.
pub open spec fn wrap_add(a: u64, b: u64) -> u64 {
    if a + b <= u64::MAX { (a + b) as u64 } else { (a + b - 0x1_0000_0000_0000_0000) as u64 }
}

/// The counters of a memory tracker.
pub ghost struct TrackerView {
    pub allocated: u64,
    pub deallocated: u64,
    pub peak_memory: u64,
    pub allocation_count: u64,
    pub deallocation_count: u64,
    pub total_allocation_size: u64,
    pub moderate_threshold: u64,
    pub high_threshold: u64,
    pub critical_threshold: u64,
    pub last_check_nanos: u64,
}

/// Memory tracker for monitoring heap allocations and providing adaptive
/// behavior. Counters wrap around on overflow, like atomic additions do.
#[derive(Debug)]
pub struct MemoryTracker {
    /// Total bytes allocated
    allocated: u64,
    /// Total bytes deallocated
    deallocated: u64,
    /// Peak memory usage
    peak_memory: u64,
    /// Number of allocations
    allocation_count: u64,
    /// Number of deallocations
    deallocation_count: u64,
    /// Total allocation size for average calculation
    total_allocation_size: u64,
    /// Moment of the last periodic pressure check, in nanoseconds since the
    /// tracker was created
    last_check_nanos: u64,
    /// Memory pressure thresholds in MB
    moderate_threshold: u64,
    high_threshold: u64,
    critical_threshold: u64,
}

/// The pressure level of `current` bytes of live memory: the highest
/// threshold (in whole megabytes) that it reaches.
pub open spec fn pressure_of(t: TrackerView, current: u64) -> MemoryPressure {
    let mb = current / BYTES_PER_MB;
    if mb >= t.critical_threshold {
        MemoryPressure::Critical
    } else if mb >= t.high_threshold {
        MemoryPressure::High
    } else if mb >= t.moderate_threshold {
        MemoryPressure::Moderate
    } else {
        MemoryPressure::Low
    }
}

/// The live memory: allocated minus deallocated bytes, at least 0.
pub open spec fn current_of(t: TrackerView) -> u64 {
    sat_sub(t.allocated, t.deallocated)
}

/// The advice for a tracker state.
pub open spec fn recommendations_for(t: TrackerView) -> Seq<Seq<char>> {
    let base = match pressure_of(t, current_of(t)) {
        MemoryPressure::Critical => seq![
            "Immediately reduce concurrent operations"@,
            "Clear all non-essential caches"@,
            "Consider reducing buffer sizes"@,
        ],
        MemoryPressure::High => seq![
            "Reduce concurrent chunk downloads"@,
            "Enable aggressive cache cleanup"@,
            "Consider smaller buffer sizes"@,
        ],
        MemoryPressure::Moderate => seq!["Enable periodic cache cleanup"@, "Monitor allocation patterns"@],
        MemoryPressure::Low => if low_efficiency(t) {
            seq!["Consider optimizing memory reuse"@]
        } else {
            Seq::empty()
        },
    };
    if large_average_allocation(t) {
        base.push("Large average allocation size detected - consider buffer pooling"@)
    } else {
        base
    }
}

/// Less than 80% of the allocated bytes have been released (no allocation
/// at all counts as 0%).
pub open spec fn low_efficiency(t: TrackerView) -> bool {
    t.allocated == 0 || t.deallocated * 5 < t.allocated * 4
}

/// Allocations average more than one megabyte.
pub open spec fn large_average_allocation(t: TrackerView) -> bool {
    t.allocation_count > 0 && t.total_allocation_size > BYTES_PER_MB * t.allocation_count
}

/// A fresh tracker with the given thresholds.
pub open spec fn fresh_tracker(moderate: u64, high: u64, critical: u64, now_nanos: u64) -> TrackerView {
    TrackerView {
        allocated: 0,
        deallocated: 0,
        peak_memory: 0,
        allocation_count: 0,
        deallocation_count: 0,
        total_allocation_size: 0,
        moderate_threshold: moderate,
        high_threshold: high,
        critical_threshold: critical,
        last_check_nanos: now_nanos,
    }
}

/// Thirty seconds in nanoseconds: the pause between periodic pressure logs.
pub const CHECK_INTERVAL_NANOS: u64 = 30000000000;

impl View for MemoryTracker {
    type V = TrackerView;

    closed spec fn view(&self) -> TrackerView {
        TrackerView {
            allocated: self.allocated,
            deallocated: self.deallocated,
            peak_memory: self.peak_memory,
            allocation_count: self.allocation_count,
            deallocation_count: self.deallocation_count,
            total_allocation_size: self.total_allocation_size,
            moderate_threshold: self.moderate_threshold,
            high_threshold: self.high_threshold,
            critical_threshold: self.critical_threshold,
            last_check_nanos: self.last_check_nanos,
        }
    }
}

impl Default for MemoryTracker {
    fn default() -> (t: Self)
        ensures
            t@ == fresh_tracker(200, 500, 1000, 0),
    {
        Self::new()
    }
}

impl MemoryTracker {
    /// Create a new memory tracker with default thresholds: 200MB, 500MB and
    /// 1000MB
    pub fn new() -> (t: Self)
        ensures
            t@ == fresh_tracker(200, 500, 1000, 0),
    {
        Self::with_thresholds(200, 500, 1000)
    }

    /// Create a new memory tracker with custom thresholds (in MB)
    pub fn with_thresholds(moderate: u64, high: u64, critical: u64) -> (t: Self)
        ensures
            t@ == fresh_tracker(moderate, high, critical, 0),
    {
        MemoryTracker {
            allocated: 0,
            deallocated: 0,
            peak_memory: 0,
            allocation_count: 0,
            deallocation_count: 0,
            total_allocation_size: 0,
            last_check_nanos: 0,
            moderate_threshold: moderate,
            high_threshold: high,
            critical_threshold: critical,
        }
    }

    /// Record a memory allocation of `size` bytes; the peak follows the live
    /// memory up
    pub fn record_allocation(&mut self, size: usize)
        ensures
            final(self)@ == after_allocation(old(self)@, size as u64),
    {
        let size_u64 = size as u64;
        self.allocated = self.allocated.wrapping_add(size_u64);
        self.allocation_count = self.allocation_count.wrapping_add(1);
        self.total_allocation_size = self.total_allocation_size.wrapping_add(size_u64);
        let current = self.current_memory();
        if current > self.peak_memory {
            self.peak_memory = current;
        }
    }

    /// Record a memory deallocation of `size` bytes
    pub fn record_deallocation(&mut self, size: usize)
        ensures
            final(self)@ == after_deallocation(old(self)@, size as u64),
    {
        let size_u64 = size as u64;
        self.deallocated = self.deallocated.wrapping_add(size_u64);
        self.deallocation_count = self.deallocation_count.wrapping_add(1);
    }

    /// Get current memory usage statistics
    pub fn get_usage(&self) -> (u: MemoryUsage)
        ensures
            u == (MemoryUsage {
                heap_allocated: self@.allocated,
                heap_deallocated: self@.deallocated,
                peak_memory: self@.peak_memory,
                current_memory: current_of(self@),
                allocation_count: self@.allocation_count,
                deallocation_count: self@.deallocation_count,
                total_allocation_size: self@.total_allocation_size,
            }),
    {
        MemoryUsage {
            heap_allocated: self.allocated,
            heap_deallocated: self.deallocated,
            peak_memory: self.peak_memory,
            current_memory: self.allocated.saturating_sub(self.deallocated),
            allocation_count: self.allocation_count,
            deallocation_count: self.deallocation_count,
            total_allocation_size: self.total_allocation_size,
        }
    }

    /// Get current memory usage in bytes
    pub fn current_memory(&self) -> (r: u64)
        ensures
            r == current_of(self@),
    {
        self.allocated.saturating_sub(self.deallocated)
    }

    /// Get current memory pressure level
    pub fn memory_pressure(&self) -> (r: MemoryPressure)
        ensures
            r == pressure_of(self@, current_of(self@)),
    {
        let mb = self.current_memory() / BYTES_PER_MB;
        if mb >= self.critical_threshold {
            MemoryPressure::Critical
        } else if mb >= self.high_threshold {
            MemoryPressure::High
        } else if mb >= self.moderate_threshold {
            MemoryPressure::Moderate
        } else {
            MemoryPressure::Low
        }
    }

    /// Check the memory pressure at time `now_nanos`. Also tells whether the
    /// periodic report is due (more than 30 seconds since the last one, in
    /// which case the check time moves to `now_nanos`).
    pub fn check_memory_pressure(&mut self, now_nanos: u64) -> (r: (MemoryPressure, bool))
        ensures
            r.0 == pressure_of(old(self)@, current_of(old(self)@)),
            r.1 == (sat_sub(now_nanos, old(self)@.last_check_nanos) > CHECK_INTERVAL_NANOS),
            final(self)@ == (TrackerView {
                last_check_nanos: if r.1 { now_nanos } else { old(self)@.last_check_nanos },
                ..old(self)@
            }),
    {
        let pressure = self.memory_pressure();
        let due = now_nanos.saturating_sub(self.last_check_nanos) > CHECK_INTERVAL_NANOS;
        if due {
            self.last_check_nanos = now_nanos;
        }
        (pressure, due)
    }

    /// Reset all statistics; the check time moves to `now_nanos`
    pub fn reset(&mut self, now_nanos: u64)
        ensures
            final(self)@ == fresh_tracker(
                old(self)@.moderate_threshold,
                old(self)@.high_threshold,
                old(self)@.critical_threshold,
                now_nanos,
            ),
    {
        self.allocated = 0;
        self.deallocated = 0;
        self.peak_memory = 0;
        self.allocation_count = 0;
        self.deallocation_count = 0;
        self.total_allocation_size = 0;
        self.last_check_nanos = now_nanos;
    }

    /// Get optimization recommendations based on current state
    pub fn get_recommendations(&self) -> (r: Vec<String>)
        ensures
            r@.map_values(|s: String| s@) == recommendations_for(self@),
    {
        let mut recommendations: Vec<String> = Vec::new();
        let pressure = self.memory_pressure();
        match pressure {
            MemoryPressure::Critical => {
                recommendations.push(owned("Immediately reduce concurrent operations"));
                recommendations.push(owned("Clear all non-essential caches"));
                recommendations.push(owned("Consider reducing buffer sizes"));
            },
            MemoryPressure::High => {
                recommendations.push(owned("Reduce concurrent chunk downloads"));
                recommendations.push(owned("Enable aggressive cache cleanup"));
                recommendations.push(owned("Consider smaller buffer sizes"));
            },
            MemoryPressure::Moderate => {
                recommendations.push(owned("Enable periodic cache cleanup"));
                recommendations.push(owned("Monitor allocation patterns"));
            },
            MemoryPressure::Low => {
                if self.allocated == 0 || (self.deallocated as u128) * 5 < (self.allocated as u128) * 4 {
                    recommendations.push(owned("Consider optimizing memory reuse"));
                }
            },
        }
        let ghost base = recommendations@.map_values(|s: String| s@);
        if self.allocation_count > 0
            && (self.total_allocation_size as u128) > (BYTES_PER_MB as u128) * (self.allocation_count as u128) {
            recommendations.push(owned("Large average allocation size detected - consider buffer pooling"));
            assert(recommendations@.map_values(|s: String| s@) =~= base.push(
                "Large average allocation size detected - consider buffer pooling"@,
            ));
        }
        assert(recommendations@.map_values(|s: String| s@) =~= recommendations_for(self@));
        recommendations
    }
}

/// The tracker state after `record_allocation(size)`.
pub open spec fn after_allocation(t: TrackerView, size: u64) -> TrackerView {
    let moved = TrackerView {
        allocated: wrap_add(t.allocated, size),
        allocation_count: wrap_add(t.allocation_count, 1),
        total_allocation_size: wrap_add(t.total_allocation_size, size),
        ..t
    };
    TrackerView {
        peak_memory: if current_of(moved) > t.peak_memory { current_of(moved) } else { t.peak_memory },
        ..moved
    }
}

/// The tracker state after `record_deallocation(size)`.
pub open spec fn after_deallocation(t: TrackerView, size: u64) -> TrackerView {
    TrackerView {
        deallocated: wrap_add(t.deallocated, size),
        deallocation_count: wrap_add(t.deallocation_count, 1),
        ..t
    }
}

/// The peak never falls below the live memory: right after an allocation
/// the live memory is at most the peak, and a deallocation (short of the
/// deallocated counter wrapping around) keeps it so.
pub proof fn lemma_peak_covers_current(t: TrackerView, size: u64)
    ensures
        current_of(after_allocation(t, size)) <= after_allocation(t, size).peak_memory,
        (current_of(t) <= t.peak_memory && t.deallocated + size <= u64::MAX) ==> current_of(after_deallocation(t, size))
            <= after_deallocation(t, size).peak_memory,
{
}

/// Pressure is monotone in live memory: more live memory never gives a
/// lower level (for thresholds in increasing order).
pub proof fn lemma_pressure_monotone(t: TrackerView, a: u64, b: u64)
    requires
        a <= b,
        t.moderate_threshold <= t.high_threshold <= t.critical_threshold,
    ensures
        pressure_rank(pressure_of(t, a)) <= pressure_rank(pressure_of(t, b)),
{
    assert(a / BYTES_PER_MB <= b / BYTES_PER_MB) by (nonlinear_arith)
        requires a <= b;
}

/// The rank of a pressure level: Low 0, Moderate 1, High 2, Critical 3.
pub open spec fn pressure_rank(p: MemoryPressure) -> int {
    match p {
        MemoryPressure::Low => 0,
        MemoryPressure::Moderate => 1,
        MemoryPressure::High => 2,
        MemoryPressure::Critical => 3,
    }
}

} // verus!
