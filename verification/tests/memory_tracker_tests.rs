use turbo_cdn::memory_tracker::{MemoryPressure, MemoryTracker};

#[test]
fn test_memory_tracker_creation() {
    let tracker = MemoryTracker::new();
    let usage = tracker.get_usage();
    assert_eq!(usage.heap_allocated, 0);
    assert_eq!(usage.heap_deallocated, 0);
    assert_eq!(usage.current_memory, 0);
    assert_eq!(usage.allocation_count, 0);
}

#[test]
fn test_memory_allocation_tracking() {
    let mut tracker = MemoryTracker::new();
    tracker.record_allocation(1024);
    tracker.record_allocation(2048);
    let usage = tracker.get_usage();
    assert_eq!(usage.heap_allocated, 3072);
    assert_eq!(usage.allocation_count, 2);
    assert_eq!(usage.current_memory, 3072);
    assert_eq!(usage.total_allocation_size as f64 / usage.allocation_count as f64, 1536.0);
}

#[test]
fn test_memory_deallocation_tracking() {
    let mut tracker = MemoryTracker::new();
    tracker.record_allocation(2048);
    tracker.record_deallocation(1024);
    let usage = tracker.get_usage();
    assert_eq!(usage.heap_allocated, 2048);
    assert_eq!(usage.heap_deallocated, 1024);
    assert_eq!(usage.current_memory, 1024);
    assert_eq!(usage.deallocation_count, 1);
}

#[test]
fn test_peak_memory_tracking() {
    let mut tracker = MemoryTracker::new();
    tracker.record_allocation(1024);
    tracker.record_allocation(2048);
    tracker.record_deallocation(1024);
    let usage = tracker.get_usage();
    assert_eq!(usage.peak_memory, 3072);
    assert_eq!(usage.current_memory, 2048);
}

#[test]
fn test_memory_tracker_reset() {
    let mut tracker = MemoryTracker::new();
    tracker.record_allocation(1024);
    tracker.record_deallocation(512);
    let usage_before = tracker.get_usage();
    assert!(usage_before.heap_allocated > 0);
    tracker.reset(0);
    let usage_after = tracker.get_usage();
    assert_eq!(usage_after.heap_allocated, 0);
    assert_eq!(usage_after.heap_deallocated, 0);
    assert_eq!(usage_after.allocation_count, 0);
}

#[test]
fn pressure_follows_the_thresholds_in_megabytes() {
    let mut tracker = MemoryTracker::with_thresholds(1, 2, 3);
    assert_eq!(tracker.memory_pressure(), MemoryPressure::Low);
    tracker.record_allocation(1024 * 1024);
    assert_eq!(tracker.memory_pressure(), MemoryPressure::Moderate);
    tracker.record_allocation(1024 * 1024);
    assert_eq!(tracker.memory_pressure(), MemoryPressure::High);
    tracker.record_allocation(1024 * 1024);
    assert_eq!(tracker.memory_pressure(), MemoryPressure::Critical);
    assert_eq!(
        MemoryPressure::Critical.recommended_action(),
        "Emergency cleanup and pause non-essential operations"
    );
}

#[test]
fn pressure_report_is_due_after_thirty_seconds() {
    let mut tracker = MemoryTracker::new();
    let (pressure, due) = tracker.check_memory_pressure(10_000_000_000);
    assert_eq!(pressure, MemoryPressure::Low);
    assert!(!due);
    let (_, due) = tracker.check_memory_pressure(30_000_000_001);
    assert!(due);
    let (_, due) = tracker.check_memory_pressure(40_000_000_000);
    assert!(!due);
}

#[test]
fn deallocating_more_than_allocated_keeps_current_at_zero() {
    let mut tracker = MemoryTracker::new();
    tracker.record_allocation(10);
    tracker.record_deallocation(20);
    assert_eq!(tracker.current_memory(), 0);
}

#[test]
fn recommendations_for_low_and_critical_pressure() {
    let mut tracker = MemoryTracker::with_thresholds(1, 2, 3);
    tracker.record_allocation(100);
    assert_eq!(tracker.get_recommendations(), vec!["Consider optimizing memory reuse".to_string()]);
    tracker.record_deallocation(100);
    assert!(tracker.get_recommendations().is_empty());
    tracker.record_allocation(4 * 1024 * 1024);
    let recs = tracker.get_recommendations();
    assert_eq!(recs[0], "Immediately reduce concurrent operations");
    assert_eq!(recs.last().unwrap(), "Large average allocation size detected - consider buffer pooling");
}
