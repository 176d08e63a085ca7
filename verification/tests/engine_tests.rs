//! Tests of the adaptive fetch engine, its window state, the error
//! classifier and the back-off schedule.

use erc8004_events::batcher::{Batcher, BATCH_INITIAL, BATCH_MAX_CEILING, BATCH_MIN};
use erc8004_events::backoff::{backoff_base_ms, backoff_with_jitter};
use erc8004_events::classify::{classify_error, RpcErrorKind};
use erc8004_events::engine::{FailureStep, FetchEngine, FetchError, RANGE_SHRINK_DELAY_MS};
use erc8004_events::store::RawLog;

fn raw_log(block: u64) -> RawLog {
    RawLog {
        block_number: Some(block),
        tx_hash: Some(String::from("0xabc")),
        tx_index: Some(0),
        log_index: Some(0),
        address: String::from("0x8004"),
        topics: vec![String::from("0xt0")],
        data: String::from("0x"),
        removed: false,
    }
}

fn classify(msg: &str) -> RpcErrorKind {
    classify_error(&msg.as_bytes().to_vec())
}

#[test]
fn batcher_starts_at_defaults() {
    let b = Batcher::new();
    assert_eq!(b.size, BATCH_INITIAL);
    assert_eq!(b.ceiling, BATCH_MAX_CEILING);
}

#[test]
fn batcher_grows_to_ceiling_and_stops() {
    let mut b = Batcher::new();
    b.grow();
    assert_eq!(b.size, 1000);
    b.grow();
    assert_eq!(b.size, 2000);
    for _ in 0..10 {
        b.grow();
    }
    assert_eq!(b.size, BATCH_MAX_CEILING);
    assert_eq!(b.ceiling, BATCH_MAX_CEILING);
}

#[test]
fn batcher_range_shrink_is_a_ratchet() {
    let mut b = Batcher::new();
    assert!(b.shrink_for_range());
    assert_eq!(b.ceiling, 250);
    assert_eq!(b.size, 250);
    // Growth is now capped at the learned ceiling.
    b.grow();
    assert_eq!(b.size, 250);
    assert!(b.shrink_for_range());
    assert_eq!(b.ceiling, 125);
    let mut guard = 0;
    while b.size > BATCH_MIN {
        assert!(b.shrink_for_range());
        guard += 1;
        assert!(guard < 20);
    }
    // At the floor a range error is no longer recoverable.
    assert!(!b.shrink_for_range());
    assert_eq!(b.size, BATCH_MIN);
    assert_eq!(b.ceiling, BATCH_MIN);
}

#[test]
fn batcher_transient_shrink_keeps_ceiling() {
    let mut b = Batcher::new();
    b.shrink_transient();
    assert_eq!(b.size, 250);
    assert_eq!(b.ceiling, BATCH_MAX_CEILING);
    for _ in 0..10 {
        b.shrink_transient();
    }
    assert_eq!(b.size, BATCH_MIN);
    assert_eq!(b.ceiling, BATCH_MAX_CEILING);
}

#[test]
fn classify_range_phrases() {
    assert_eq!(classify("Block range is too wide"), RpcErrorKind::RangeTooLarge);
    assert_eq!(classify("range too large"), RpcErrorKind::RangeTooLarge);
    assert_eq!(classify("query exceeds max block span"), RpcErrorKind::RangeTooLarge);
    assert_eq!(classify("Max Range of 2000 blocks"), RpcErrorKind::RangeTooLarge);
    assert_eq!(classify("query returned more than 10000 results"), RpcErrorKind::RangeTooLarge);
    assert_eq!(classify("log response size exceeded"), RpcErrorKind::RangeTooLarge);
    assert_eq!(classify("eth_getLogs request limit reached"), RpcErrorKind::RangeTooLarge);
}

#[test]
fn classify_rate_limit_phrases() {
    assert_eq!(classify("HTTP 429"), RpcErrorKind::RateLimited);
    assert_eq!(classify("Rate limit exceeded, slow down"), RpcErrorKind::RateLimited);
    assert_eq!(classify("too many requests"), RpcErrorKind::RateLimited);
    assert_eq!(classify("request was THROTTLED"), RpcErrorKind::RateLimited);
    assert_eq!(classify("please backoff"), RpcErrorKind::RateLimited);
    assert_eq!(classify("compute capacity exhausted"), RpcErrorKind::RateLimited);
}

#[test]
fn classify_transient_fallback() {
    assert_eq!(classify("connection reset by peer"), RpcErrorKind::Transient);
    assert_eq!(classify("request timed out"), RpcErrorKind::Transient);
    assert_eq!(classify(""), RpcErrorKind::Transient);
}

#[test]
fn classify_range_wins_over_rate_limit() {
    assert_eq!(classify("429: block range too wide"), RpcErrorKind::RangeTooLarge);
}

#[test]
fn backoff_base_schedule() {
    assert_eq!(backoff_base_ms(0), 1_000);
    assert_eq!(backoff_base_ms(1), 2_000);
    assert_eq!(backoff_base_ms(2), 4_000);
    assert_eq!(backoff_base_ms(3), 8_000);
    assert_eq!(backoff_base_ms(4), 16_000);
    assert_eq!(backoff_base_ms(5), 30_000);
    assert_eq!(backoff_base_ms(6), 30_000);
    assert_eq!(backoff_base_ms(1_000), 30_000);
}

#[test]
fn backoff_jitter_is_half_plus_remainder() {
    assert_eq!(backoff_with_jitter(1, 0), 1_000);
    assert_eq!(backoff_with_jitter(1, 999), 1_999);
    assert_eq!(backoff_with_jitter(1, 1_001), 1_000);
    assert_eq!(backoff_with_jitter(0, 1_500), 500 + 1_500 % 501);
    for attempt in 0..8 {
        let base = backoff_base_ms(attempt);
        for jitter in [0u32, 1, 499, 123_456_789] {
            let d = backoff_with_jitter(attempt, jitter);
            assert!(base / 2 <= d && d <= base);
        }
    }
}

#[test]
fn backoff_duration_stays_within_the_documented_bounds() {
    for attempt in [0u32, 1, 5, 9] {
        let base = backoff_base_ms(attempt);
        for _ in 0..3 {
            let d = erc8004_events::backoff::backoff_duration(attempt);
            assert!(base / 2 <= d && d <= base);
        }
    }
}

#[test]
fn cursor_now_records_the_block() {
    let c = erc8004_events::cursor::Cursor::now(41_663_783);
    assert_eq!(c.last_block, 41_663_783);
}

#[test]
fn engine_single_request_covers_short_range() {
    let mut e = FetchEngine::new(100, 200, 10);
    let (from, to) = e.next_request().unwrap();
    assert_eq!((from, to), (100, 200));
    let flush_due = e.on_success(vec![raw_log(100)]);
    assert!(!flush_due);
    assert!(e.next_request().is_none());
    assert_eq!(e.errors, 0);
    assert_eq!(e.reqs, 1);
}

#[test]
fn engine_requests_are_increasing_and_tile_the_range() {
    // The provider rejects any range wider than 50 blocks.
    let mut e = FetchEngine::new(100, 200, 10);
    let mut ranges: Vec<(u64, u64)> = Vec::new();
    let mut ceiling_seen = e.batcher.ceiling;
    let mut guard = 0;
    loop {
        guard += 1;
        assert!(guard < 100);
        let Some((from, to)) = e.next_request() else {
            break;
        };
        // The ceiling never grows back: the limit is learned once.
        assert!(e.batcher.ceiling <= ceiling_seen);
        assert!(e.batcher.size <= e.batcher.ceiling);
        assert!(e.batcher.size >= BATCH_MIN);
        ceiling_seen = e.batcher.ceiling;
        if to - from + 1 > 50 {
            match e.on_failure(RpcErrorKind::RangeTooLarge, 0) {
                FailureStep::Retry { sleep_ms } => assert_eq!(sleep_ms, RANGE_SHRINK_DELAY_MS),
                FailureStep::Fatal(_) => panic!("shrink should stay above the floor"),
            }
        } else {
            ranges.push((from, to));
            e.on_success(vec![]);
        }
    }
    // After the first rejection the ceiling is at most half the
    // starting window, and it converges to the provider's limit.
    assert!(e.batcher.ceiling <= 250);
    assert!(e.batcher.size <= 50);
    // The successful requests tile [100, 200] in increasing order.
    assert_eq!(ranges.first().unwrap().0, 100);
    assert_eq!(ranges.last().unwrap().1, 200);
    for w in ranges.windows(2) {
        assert_eq!(w[0].1 + 1, w[1].0);
    }
}

#[test]
fn engine_rate_limit_backs_off_without_resizing() {
    // The provider rate-limits exactly twice, then succeeds.
    let mut e = FetchEngine::new(100, 150, 10);
    let size_before = e.batcher.size;
    let mut total_delay = 0;
    for _ in 0..2 {
        match e.on_failure(RpcErrorKind::RateLimited, 0) {
            FailureStep::Retry { sleep_ms } => total_delay += sleep_ms,
            FailureStep::Fatal(_) => panic!("two errors are within the budget"),
        }
    }
    // Two back-off sleeps with no jitter: half of 2s, then half of 4s.
    assert_eq!(total_delay, backoff_with_jitter(1, 0) + backoff_with_jitter(2, 0));
    assert_eq!(total_delay, 1_000 + 2_000);
    assert_eq!(e.batcher.size, size_before);
    assert_eq!(e.batcher.ceiling, BATCH_MAX_CEILING);
    e.on_success(vec![raw_log(100)]);
    assert!(e.next_request().is_none());
    assert_eq!(e.errors, 0);
}

#[test]
fn engine_transient_halves_window_only() {
    let mut e = FetchEngine::new(0, 10_000, 10);
    match e.on_failure(RpcErrorKind::Transient, 7) {
        FailureStep::Retry { sleep_ms } => assert_eq!(sleep_ms, backoff_with_jitter(1, 7)),
        FailureStep::Fatal(_) => panic!("first error is within the budget"),
    }
    assert_eq!(e.batcher.size, 250);
    assert_eq!(e.batcher.ceiling, BATCH_MAX_CEILING);
}

#[test]
fn engine_error_budget_is_fatal_for_every_class() {
    let mut e = FetchEngine::new(0, 100, 3);
    assert!(matches!(e.on_failure(RpcErrorKind::Transient, 0), FailureStep::Retry { .. }));
    assert!(matches!(e.on_failure(RpcErrorKind::RateLimited, 0), FailureStep::Retry { .. }));
    assert_eq!(
        e.on_failure(RpcErrorKind::RateLimited, 0),
        FailureStep::Fatal(FetchError::TooManyErrors)
    );
}

#[test]
fn engine_range_error_at_floor_is_fatal() {
    let mut e = FetchEngine::new(0, 100_000, 100);
    // Ratchet the window down to the floor.
    let mut guard = 0;
    while e.batcher.size > BATCH_MIN {
        assert!(matches!(
            e.on_failure(RpcErrorKind::RangeTooLarge, 0),
            FailureStep::Retry { .. }
        ));
        guard += 1;
        assert!(guard < 20);
    }
    assert_eq!(
        e.on_failure(RpcErrorKind::RangeTooLarge, 0),
        FailureStep::Fatal(FetchError::RangeAtMinimum)
    );
}

#[test]
fn engine_flush_threshold_and_flush_into() {
    let mut e = FetchEngine::new(0, 1_000_000, 10);
    let logs: Vec<RawLog> = (0..5_000).map(|i| raw_log(i)).collect();
    let flush_due = e.on_success(logs);
    assert!(flush_due);
    let mut batches: Vec<Vec<erc8004_events::store::EventRecord>> = Vec::new();
    let n = e.flush_into(&mut batches);
    assert_eq!(n, 5_000);
    assert_eq!(batches.len(), 1);
    assert_eq!(batches[0].len(), 5_000);
    assert_eq!(e.pending.len(), 0);
    // A flush with nothing pending leaves the dataset alone.
    let n2 = e.flush_into(&mut batches);
    assert_eq!(n2, 0);
    assert_eq!(batches.len(), 1);
}

#[test]
fn engine_success_resets_error_counter() {
    let mut e = FetchEngine::new(0, 1_000_000, 10);
    e.on_failure(RpcErrorKind::Transient, 0);
    e.on_failure(RpcErrorKind::Transient, 0);
    assert_eq!(e.errors, 2);
    e.on_success(vec![]);
    assert_eq!(e.errors, 0);
}
