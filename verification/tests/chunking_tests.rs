use turbo_cdn::concurrent_downloader::{
    check_urls_selected, retry_delay_secs, step_after_failure, urls_to_try, ChunkInfo, ChunkSettings, DownloadStep,
};
use turbo_cdn::error::TurboCdnError;
use turbo_cdn::smart_chunking::{generate_chunks, ChunkRange, ChunkStrategy, SmartChunking};

const MIB: u64 = 1024 * 1024;

fn chunking() -> SmartChunking {
    SmartChunking::new(256 * 1024, 10 * MIB, MIB, 8)
}

#[test]
fn strategy_follows_file_size() {
    let c = chunking();
    assert_eq!(c.calculate_strategy(100, true, None), ChunkStrategy::Single);
    assert_eq!(c.calculate_strategy(2 * MIB, false, None), ChunkStrategy::Single);
    assert_eq!(c.calculate_strategy(2 * MIB, true, None), ChunkStrategy::Fixed { chunk_size: 512 * 1024 });
    assert_eq!(
        c.calculate_strategy(100 * MIB, true, None),
        ChunkStrategy::Dynamic { base_size: MIB, max_chunks: 16 }
    );
    assert_eq!(
        c.calculate_strategy(1024 * MIB, true, None),
        ChunkStrategy::Aggressive { chunk_size: 10 * MIB, max_chunks: 16 }
    );
}

#[test]
fn fixed_chunks_cover_the_file() {
    let chunks = generate_chunks(10, &ChunkStrategy::Fixed { chunk_size: 4 });
    assert_eq!(
        chunks,
        vec![
            ChunkRange { index: 0, start: 0, end: 3, size: 4 },
            ChunkRange { index: 1, start: 4, end: 7, size: 4 },
            ChunkRange { index: 2, start: 8, end: 9, size: 2 },
        ]
    );
    assert_eq!(chunks[1].to_range_header(), "bytes=4-7");
    let single = generate_chunks(5, &ChunkStrategy::Single);
    assert_eq!(single, vec![ChunkRange { index: 0, start: 0, end: 4, size: 5 }]);
}

#[test]
fn dynamic_chunks_partition_the_file() {
    let file_size = 100 * MIB + 7;
    let chunks = generate_chunks(file_size, &ChunkStrategy::Dynamic { base_size: MIB, max_chunks: 16 });
    assert_eq!(chunks[0].start, 0);
    assert_eq!(chunks.last().unwrap().end, file_size - 1);
    for w in chunks.windows(2) {
        assert_eq!(w[1].start, w[0].end + 1);
    }
    let total: u64 = chunks.iter().map(|c| c.size).sum();
    assert_eq!(total, file_size);
}

fn settings() -> ChunkSettings {
    ChunkSettings {
        max_concurrent_chunks: 4,
        initial_chunk_size: 4 * MIB,
        min_chunk_size: 256 * 1024,
        max_chunk_size: 16 * MIB,
        adaptive_chunking_enabled: true,
        speed_threshold_bytes_per_sec: MIB,
    }
}

#[test]
fn chunk_size_follows_file_size_and_speed() {
    let s = settings();
    assert_eq!(s.calculate_optimal_chunk_size(2 * MIB, None), MIB);
    assert_eq!(s.calculate_optimal_chunk_size(2 * MIB, Some(100 * 1024)), 512 * 1024);
    assert_eq!(s.calculate_optimal_chunk_size(20 * MIB, Some(10 * MIB)), 2 * MIB);
    assert_eq!(s.calculate_optimal_chunk_size(512, None), 256 * 1024);
}

#[test]
fn chunks_cover_the_remaining_bytes() {
    let s = settings();
    let chunks: Vec<ChunkInfo> = s.calculate_chunks(100, 10 * MIB);
    assert_eq!(chunks[0].start, 100);
    assert_eq!(chunks.last().unwrap().end, 10 * MIB - 1);
    for (i, w) in chunks.windows(2).enumerate() {
        assert_eq!(w[0].index, i);
        assert_eq!(w[1].start, w[0].end + 1);
    }
    assert!(s.calculate_chunks(10, 10).is_empty());
}

#[test]
fn failures_retry_then_move_on() {
    let timeout = TurboCdnError::timeout("slow");
    assert_eq!(
        step_after_failure(0, 2, 0, 3, &timeout),
        DownloadStep::Retry { attempt: 1, delay_secs: 1 }
    );
    assert_eq!(
        step_after_failure(0, 2, 2, 3, &timeout),
        DownloadStep::Retry { attempt: 3, delay_secs: 4 }
    );
    assert_eq!(step_after_failure(0, 2, 3, 3, &timeout), DownloadStep::NextUrl { url_index: 1 });
    let missing = TurboCdnError::from_status_code(404, "u");
    assert_eq!(step_after_failure(0, 2, 0, 3, &missing), DownloadStep::NextUrl { url_index: 1 });
    assert_eq!(step_after_failure(1, 2, 0, 3, &missing), DownloadStep::GiveUp);
    assert_eq!(retry_delay_secs(3), 4);
    assert_eq!(urls_to_try(20), 8);
    assert_eq!(urls_to_try(3), 3);
}

#[test]
fn download_gives_up_after_every_attempt_of_every_url() {
    let timeout = TurboCdnError::timeout("slow");
    let (mut url, mut attempt, mut failures) = (0usize, 0usize, 0usize);
    loop {
        failures += 1;
        match step_after_failure(url, 2, attempt, 3, &timeout) {
            DownloadStep::Retry { attempt: a, .. } => attempt = a,
            DownloadStep::NextUrl { url_index } => {
                url = url_index;
                attempt = 0;
            }
            DownloadStep::GiveUp => break,
        }
    }
    assert_eq!(failures, 8);
}

#[test]
fn a_download_without_urls_fails_at_once() {
    assert!(check_urls_selected(2).is_ok());
    match check_urls_selected(0) {
        Err(TurboCdnError::Download { message }) => assert_eq!(message, "All download URLs failed"),
        other => panic!("unexpected {:?}", other),
    }
}
