//! The adaptive fetch engine: state and transitions of the log-fetch
//! loop for one contract over one closed block range.
//!
//! The engine decides everything — which range to request next, how to
//! recover from each error class, when to flush and when to abort —
//! while the caller performs the requests, the sleeps and the file
//! writes.  Successful requests advance a block cursor in strictly
//! increasing, non-overlapping ranges; a ghost record of those ranges
//! shows that a finished fetch covered the whole range exactly once.

use vstd::prelude::*;

use crate::backoff::{backoff_with_jitter, jittered_backoff_spec};
use crate::batcher::{Batcher, BATCH_MIN};
use crate::classify::RpcErrorKind;
use crate::store::{flush, EventRecord, RawLog, FLUSH_THRESHOLD};

verus! {

/// Delay, in milliseconds, after lowering the ceiling for a range
/// error, before the retry.
pub const RANGE_SHRINK_DELAY_MS: u64 = 200;

/// Why a fetch was aborted.
#[derive(Debug, Clone, Copy, PartialEq, Eq, Structural)]
pub enum FetchError {
    /// The consecutive-error budget was exhausted.
    TooManyErrors,
    /// The provider rejected a range at the minimum window width.
    RangeAtMinimum,
}

/// What the caller must do after a failed request.
#[derive(Debug, Clone, Copy, PartialEq, Eq, Structural)]
pub enum FailureStep {
    /// Abort the fetch as fatal, after flushing pending rows.
    Fatal(FetchError),
    /// Sleep this many milliseconds, then retry the same range.
    Retry { sleep_ms: u64 },
}

/// State of one fetch invocation: one contract, one chain, one attempt.
pub struct FetchEngine {
    /// First block of the requested closed range.
    pub from: u64,
    /// Last block of the requested closed range.
    pub to: u64,
    /// Next block to request; the fetch is done once it passes `to`.
    pub next_block: u64,
    /// Adaptive window state.
    pub batcher: Batcher,
    /// Consecutive-error counter, reset on every success.
    pub errors: u32,
    /// Consecutive errors at which the fetch aborts.
    pub max_errors: u32,
    /// Successful requests so far.
    pub reqs: u64,
    /// Raw entries fetched but not yet merged into the dataset.
    pub pending: Vec<RawLog>,
    /// The closed ranges fetched so far, in request order.
    pub fetched: Ghost<Seq<(u64, u64)>>,
}

/// The fetched ranges tile `[from, next)` without gap or overlap:
/// the first starts at `from`, each next one starts right after its
/// predecessor ends, and the last ends right before `next`.
pub open spec fn ranges_wf(rs: Seq<(u64, u64)>, from: u64, next: u64) -> bool {
    &&& (rs.len() == 0 ==> next == from)
    &&& (rs.len() > 0 ==> rs[0].0 == from && rs[rs.len() - 1].1 + 1 == next)
    &&& forall|i: int| 0 <= i < rs.len() ==> (#[trigger] rs[i]).0 <= rs[i].1
    &&& forall|i: int| 0 <= i < rs.len() - 1 ==> (#[trigger] rs[i]).1 + 1 == rs[i + 1].0
}

impl FetchEngine {
    /// Engine invariant, established by `new` and preserved by every
    /// transition.
    pub open spec fn wf(self) -> bool {
        &&& self.batcher.wf()
        &&& self.from <= self.next_block <= self.to + 1
        &&& self.to < u64::MAX
        &&& self.errors <= self.max_errors
        &&& 1 <= self.max_errors
        &&& self.reqs <= self.next_block - self.from
        &&& ranges_wf(self.fetched@, self.from, self.next_block)
    }

    /// Fresh engine for the closed range `[from, to]`.
    pub fn new(from: u64, to: u64, max_errors: u32) -> (r: Self)
        requires
            from <= to < u64::MAX,
            max_errors >= 1,
        ensures
            r.wf(),
            r.from == from,
            r.to == to,
            r.next_block == from,
            r.max_errors == max_errors,
            r.errors == 0,
            r.reqs == 0,
            r.pending@.len() == 0,
            r.fetched@.len() == 0,
            r.batcher == (Batcher { size: crate::batcher::BATCH_INITIAL, ceiling: crate::batcher::BATCH_MAX_CEILING }),
    {
        FetchEngine {
            from,
            to,
            next_block: from,
            batcher: Batcher::new(),
            errors: 0,
            max_errors,
            reqs: 0,
            pending: Vec::new(),
            fetched: Ghost(Seq::empty()),
        }
    }

    /// The fetch is finished: the block cursor has passed the end of
    /// the range.
    pub open spec fn is_done(self) -> bool {
        self.next_block > self.to
    }

    /// The end block of the next request: the window width past the
    /// cursor, clipped to the end of the range.
    pub open spec fn request_end(self) -> u64 {
        if self.to - self.next_block >= self.batcher.size - 1 {
            (self.next_block + self.batcher.size - 1) as u64
        } else {
            self.to
        }
    }

    /// The closed block range to request next, or `None` once the
    /// fetch is finished.
    pub fn next_request(&self) -> (r: Option<(u64, u64)>)
        requires
            self.wf(),
        ensures
            match r {
                None => self.is_done(),
                Some((s, e)) => !self.is_done() && s == self.next_block && e == self.request_end()
                    && s <= e <= self.to,
            },
    {
        if self.next_block > self.to {
            return None;
        }
        let window = self.batcher.size - 1;
        let end = if self.to - self.next_block >= window {
            self.next_block + window
        } else {
            self.to
        };
        Some((self.next_block, end))
    }

    /// Record a successful request for the current range: append its
    /// entries to the pending buffer, reset the error counter, grow
    /// the window, and advance the cursor past the fetched range.
    /// Returns whether the pending buffer has reached the flush
    /// threshold.
    pub fn on_success(&mut self, logs: Vec<RawLog>) -> (flush_due: bool)
        requires
            old(self).wf(),
            !old(self).is_done(),
        ensures
            final(self).wf(),
            final(self).from == old(self).from,
            final(self).to == old(self).to,
            final(self).max_errors == old(self).max_errors,
            final(self).errors == 0,
            final(self).reqs == old(self).reqs + 1,
            final(self).next_block == old(self).request_end() + 1,
            final(self).next_block > old(self).next_block,
            final(self).batcher.ceiling == old(self).batcher.ceiling,
            final(self).batcher.size >= old(self).batcher.size,
            final(self).pending@ == old(self).pending@ + logs@,
            final(self).fetched@ == old(self).fetched@.push((old(self).next_block, old(self).request_end())),
            flush_due == (final(self).pending@.len() >= FLUSH_THRESHOLD),
    {
        let window = self.batcher.size - 1;
        let end = if self.to - self.next_block >= window {
            self.next_block + window
        } else {
            self.to
        };
        proof {
            assert(end == self.request_end());
        }
        self.errors = 0;
        let mut logs = logs;
        self.pending.append(&mut logs);
        self.batcher.grow();
        let ghost prior = self.fetched@;
        let ghost start = self.next_block;
        self.next_block = end + 1;
        self.reqs = self.reqs + 1;
        proof {
            self.fetched@ = prior.push((start, end));
            assert(ranges_wf(self.fetched@, self.from, self.next_block));
        }
        self.pending.len() >= FLUSH_THRESHOLD
    }

    /// Record a failed request, classified as `kind`, with a jitter
    /// source value for the back-off.  Increments the consecutive-error
    /// counter and applies the recovery policy of the class:
    /// range errors permanently lower the window ceiling (fatal at the
    /// floor), rate limits back off without touching the window, and
    /// transient errors halve the window and back off.  Exhausting the
    /// error budget is fatal regardless of class.
    pub fn on_failure(&mut self, kind: RpcErrorKind, jitter_nanos: u32) -> (r: FailureStep)
        requires
            old(self).wf(),
            old(self).errors < old(self).max_errors,
        ensures
            final(self).wf(),
            final(self).from == old(self).from,
            final(self).to == old(self).to,
            final(self).max_errors == old(self).max_errors,
            final(self).next_block == old(self).next_block,
            final(self).reqs == old(self).reqs,
            final(self).pending@ == old(self).pending@,
            final(self).fetched@ == old(self).fetched@,
            final(self).errors == old(self).errors + 1,
            final(self).batcher.ceiling <= old(self).batcher.ceiling,
            old(self).errors + 1 >= old(self).max_errors ==> r == FailureStep::Fatal(FetchError::TooManyErrors)
                && final(self).batcher == old(self).batcher,
            old(self).errors + 1 < old(self).max_errors ==> match kind {
                RpcErrorKind::RangeTooLarge => {
                    if old(self).batcher.size <= BATCH_MIN {
                        r == FailureStep::Fatal(FetchError::RangeAtMinimum)
                            && final(self).batcher == old(self).batcher
                    } else {
                        r == (FailureStep::Retry { sleep_ms: RANGE_SHRINK_DELAY_MS })
                            && final(self).batcher.size == final(self).batcher.ceiling
                            && final(self).batcher.ceiling
                                == if old(self).batcher.size / 2 >= BATCH_MIN { (old(self).batcher.size / 2) as int } else { BATCH_MIN as int }
                    }
                },
                RpcErrorKind::RateLimited => {
                    r == (FailureStep::Retry {
                        sleep_ms: jittered_backoff_spec((old(self).errors + 1) as u32, jitter_nanos),
                    }) && final(self).batcher == old(self).batcher
                },
                RpcErrorKind::Transient => {
                    r == (FailureStep::Retry {
                        sleep_ms: jittered_backoff_spec((old(self).errors + 1) as u32, jitter_nanos),
                    }) && final(self).batcher.ceiling == old(self).batcher.ceiling
                        && final(self).batcher.size
                            == if old(self).batcher.size / 2 >= BATCH_MIN { (old(self).batcher.size / 2) as int } else { BATCH_MIN as int }
                },
            },
    {
        self.errors = self.errors + 1;
        if self.errors >= self.max_errors {
            return FailureStep::Fatal(FetchError::TooManyErrors);
        }
        match kind {
            RpcErrorKind::RangeTooLarge => {
                if !self.batcher.shrink_for_range() {
                    FailureStep::Fatal(FetchError::RangeAtMinimum)
                } else {
                    FailureStep::Retry { sleep_ms: RANGE_SHRINK_DELAY_MS }
                }
            },
            RpcErrorKind::RateLimited => {
                FailureStep::Retry { sleep_ms: backoff_with_jitter(self.errors, jitter_nanos) }
            },
            RpcErrorKind::Transient => {
                self.batcher.shrink_transient();
                FailureStep::Retry { sleep_ms: backoff_with_jitter(self.errors, jitter_nanos) }
            },
        }
    }

    /// Merge the pending buffer into the dataset (see
    /// [`crate::store::flush`]).  Returns the number of rows merged;
    /// the caller must persist the dataset when it is positive.
    pub fn flush_into(&mut self, batches: &mut Vec<Vec<EventRecord>>) -> (r: usize)
        requires
            old(self).wf(),
        ensures
            final(self).wf(),
            final(self).from == old(self).from,
            final(self).to == old(self).to,
            final(self).next_block == old(self).next_block,
            final(self).batcher == old(self).batcher,
            final(self).errors == old(self).errors,
            final(self).max_errors == old(self).max_errors,
            final(self).reqs == old(self).reqs,
            final(self).fetched@ == old(self).fetched@,
            final(self).pending@.len() == 0,
            r == crate::store::batch_of(old(self).pending@).len(),
            r > 0 ==> {
                &&& final(batches)@.len() == old(batches)@.len() + 1
                &&& forall|i: int|
                    0 <= i < old(batches)@.len() ==> final(batches)@[i] == old(batches)@[i]
                &&& final(batches)@[old(batches)@.len() as int]@
                    == crate::store::batch_of(old(self).pending@)
            },
            r == 0 ==> final(batches)@ == old(batches)@,
    {
        flush(&mut self.pending, batches)
    }
}

/// Within one chain of ranges, an earlier range ends strictly before a
/// later one starts.
proof fn lemma_ranges_step(rs: Seq<(u64, u64)>, from: u64, next: u64, i: int, j: int)
    requires
        ranges_wf(rs, from, next),
        0 <= i < j < rs.len(),
    ensures
        rs[i].1 < rs[j].0,
    decreases j - i,
{
    if j == i + 1 {
        assert(rs[i].1 + 1 == rs[j].0);
    } else {
        lemma_ranges_step(rs, from, next, i, j - 1);
        assert(rs[j - 1].1 + 1 == rs[j].0);
    }
}

/// Every range of a chain lies within `[from, next)`, and the ranges
/// are pairwise disjoint, in increasing order.
pub proof fn lemma_ranges_bounded_disjoint(rs: Seq<(u64, u64)>, from: u64, next: u64)
    requires
        ranges_wf(rs, from, next),
    ensures
        forall|i: int| 0 <= i < rs.len() ==> from <= (#[trigger] rs[i]).0 && rs[i].1 < next,
        forall|i: int, j: int|
            0 <= i < j < rs.len() ==> (#[trigger] rs[i]).1 < (#[trigger] rs[j]).0,
{
    assert forall|i: int, j: int| 0 <= i < j < rs.len() implies (#[trigger] rs[i]).1 < (
    #[trigger] rs[j]).0 by {
        lemma_ranges_step(rs, from, next, i, j);
    }
    assert forall|i: int| 0 <= i < rs.len() implies from <= (#[trigger] rs[i]).0 && rs[i].1
        < next by {
        if i > 0 {
            lemma_ranges_step(rs, from, next, 0, i);
        }
        if i < rs.len() - 1 {
            lemma_ranges_step(rs, from, next, i, rs.len() - 1);
        }
    }
}

/// Every block of `[from, next)` lies in some range of the chain.
pub proof fn lemma_ranges_cover(rs: Seq<(u64, u64)>, from: u64, next: u64, b: u64)
    requires
        ranges_wf(rs, from, next),
        from <= b < next,
    ensures
        exists|i: int| 0 <= i < rs.len() && (#[trigger] rs[i]).0 <= b <= rs[i].1,
    decreases rs.len(),
{
    let n = rs.len() as int;
    let last = rs[n - 1];
    if last.0 <= b {
        assert(rs[n - 1].0 <= b <= rs[n - 1].1);
    } else {
        let rs2 = rs.drop_last();
        assert(ranges_wf(rs2, from, last.0));
        lemma_ranges_cover(rs2, from, last.0, b);
        let i = choose|i: int| 0 <= i < rs2.len() && (#[trigger] rs2[i]).0 <= b <= rs2[i].1;
        assert(rs[i].0 <= b <= rs[i].1);
    }
}

/// Law: a finished fetch requested every block of its closed range —
/// each block of `[from, to]` lies in one of the fetched ranges.
pub proof fn lemma_fetch_block_covered(e: FetchEngine, b: u64)
    requires
        e.wf(),
        e.is_done(),
        e.from <= b <= e.to,
    ensures
        exists|i: int|
            0 <= i < e.fetched@.len() && (#[trigger] e.fetched@[i]).0 <= b <= e.fetched@[i].1,
{
    lemma_ranges_cover(e.fetched@, e.from, e.next_block, b);
}

/// Law: a fetch requested no block outside its closed range, and no
/// block twice — the fetched ranges stay within `[from, to]` and are
/// pairwise disjoint, in increasing order.
pub proof fn lemma_fetch_no_overlap(e: FetchEngine)
    requires
        e.wf(),
        e.is_done(),
    ensures
        forall|i: int|
            0 <= i < e.fetched@.len()
                ==> e.from <= (#[trigger] e.fetched@[i]).0 && e.fetched@[i].1 <= e.to,
        forall|i: int, j: int|
            0 <= i < j < e.fetched@.len()
                ==> (#[trigger] e.fetched@[i]).1 < (#[trigger] e.fetched@[j]).0,
{
    lemma_ranges_bounded_disjoint(e.fetched@, e.from, e.next_block);
}

} // verus!
