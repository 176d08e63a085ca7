//! Jittered exponential back-off for classified fetch errors.
//!
//! The base delay doubles per consecutive error up to five doublings
//! and is capped at thirty seconds; up to fifty percent random jitter
//! (drawn from the clock's nanosecond part) is added on top of half
//! the base.

use vstd::prelude::*;

verus! {

/// Base back-off delay in milliseconds for the first error.
pub const BACKOFF_BASE_MS: u64 = 1_000;

/// Upper bound on the back-off base, in milliseconds.
pub const BACKOFF_CAP_MS: u64 = 30_000;

/// Base delay before jitter: the base doubles per consecutive error,
/// at most five times, and is capped.
pub open spec fn backoff_ms_spec(attempt: u32) -> u64 {
    if attempt <= 0 {
        1_000
    } else if attempt == 1 {
        2_000
    } else if attempt == 2 {
        4_000
    } else if attempt == 3 {
        8_000
    } else if attempt == 4 {
        16_000
    } else {
        30_000
    }
}

/// Jittered delay: half the base plus the jitter reduced into the
/// other half.
pub open spec fn jittered_backoff_spec(attempt: u32, jitter_nanos: u32) -> u64 {
    let half = backoff_ms_spec(attempt) as int / 2;
    (half + (jitter_nanos as int) % (half + 1)) as u64
}

/// The base delay for the given consecutive-error count.
pub fn backoff_base_ms(attempt: u32) -> (r: u64)
    ensures
        r == backoff_ms_spec(attempt),
{
    if attempt == 0 {
        1_000
    } else if attempt == 1 {
        2_000
    } else if attempt == 2 {
        4_000
    } else if attempt == 3 {
        8_000
    } else if attempt == 4 {
        16_000
    } else {
        30_000
    }
}

/// The jittered delay for the given consecutive-error count and jitter
/// source value.  Always between half the base delay and the full base
/// delay.
pub fn backoff_with_jitter(attempt: u32, jitter_nanos: u32) -> (r: u64)
    ensures
        r == jittered_backoff_spec(attempt, jitter_nanos),
        backoff_ms_spec(attempt) / 2 <= r <= backoff_ms_spec(attempt),
{
    let base = backoff_base_ms(attempt);
    let half = base / 2;
    half + (jitter_nanos as u64) % (half + 1)
}

/// Nanosecond part of the current clock reading, used as a jitter
/// source.
///
/// Relies on std's `SystemTime`: the nanosecond part of a duration is
/// always below one billion.
#[verifier::external_body]
fn subsec_nanos_now() -> (r: u32)
    ensures
        r < 1_000_000_000,
{
    std::time::SystemTime::now()
        .duration_since(std::time::UNIX_EPOCH)
        .unwrap_or_default()
        .subsec_nanos()
}

/// The delay, in milliseconds, to sleep after the given number of
/// consecutive errors, with clock-based jitter.
pub fn backoff_duration(attempt: u32) -> (r: u64)
    ensures
        backoff_ms_spec(attempt) / 2 <= r <= backoff_ms_spec(attempt),
{
    let jitter = subsec_nanos_now();
    backoff_with_jitter(attempt, jitter)
}

} // verus!
