use turbo_cdn::progress::{format_eta, ProgressState};

#[test]
fn eta_is_shown_in_hours_minutes_and_seconds() {
    assert_eq!(format_eta(None), "Unknown");
    assert_eq!(format_eta(Some(42)), "42s");
    assert_eq!(format_eta(Some(125)), "2m 5s");
    assert_eq!(format_eta(Some(3_725)), "1h 2m 5s");
    assert_eq!(format_eta(Some(3_600)), "1h 0m 0s");
}

#[test]
fn chunk_updates_add_what_each_chunk_gained() {
    let mut p = ProgressState::new(100);
    p.init_chunks(&vec![(0, 49), (50, 99)]);
    assert_eq!(p.chunks.len(), 2);
    assert_eq!(p.chunks[1].start_byte, 50);
    p.update_chunk(0, 20);
    p.update_chunk(1, 30);
    p.update_chunk(0, 40);
    assert_eq!(p.downloaded_size, 70);
    assert_eq!(p.active_chunks(), 2);
    p.update_chunk(0, 10);
    assert_eq!(p.downloaded_size, 70);
    p.complete_chunk(1);
    assert_eq!(p.active_chunks(), 1);
    p.update_chunk(7, 99);
    assert_eq!(p.downloaded_size, 70);
    p.complete();
    assert_eq!(p.downloaded_size, 100);
    p.update(5);
    assert_eq!(p.downloaded_size, 5);
}
