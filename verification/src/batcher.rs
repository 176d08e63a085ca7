//! Adaptive block-range window for the fetch engine.
//!
//! The window grows multiplicatively on success (slow-start style) and
//! shrinks on errors.  Only "range too large" errors lower the ceiling:
//! that limit is learned once per run and respected thereafter.

use vstd::prelude::*;

verus! {

/// Window width used for the first request of a fetch.
pub const BATCH_INITIAL: u64 = 500;

/// Upper bound the ceiling starts at.
pub const BATCH_MAX_CEILING: u64 = 50_000;

/// Smallest window the engine ever requests; at this width a range
/// error is fatal.
pub const BATCH_MIN: u64 = 10;

/// Adaptive block-range window state, scoped to one fetch invocation.
pub struct Batcher {
    /// Width, in blocks, of the next request.
    pub size: u64,
    /// Learned upper bound for `size`; only ever decreases.
    pub ceiling: u64,
}

impl Batcher {
    /// The window stays between the floor and the ceiling, and the
    /// ceiling never exceeds its initial bound.
    pub open spec fn wf(self) -> bool {
        BATCH_MIN <= self.size <= self.ceiling <= BATCH_MAX_CEILING
    }

    /// Fresh window at the default width with the full ceiling.
    pub fn new() -> (r: Self)
        ensures
            r.wf(),
            r.size == BATCH_INITIAL,
            r.ceiling == BATCH_MAX_CEILING,
    {
        Self { size: BATCH_INITIAL, ceiling: BATCH_MAX_CEILING }
    }

    /// Double the window after a successful request, capped at the ceiling.
    pub fn grow(&mut self)
        requires
            old(self).wf(),
        ensures
            final(self).wf(),
            final(self).ceiling == old(self).ceiling,
            final(self).size == if 2 * old(self).size <= old(self).ceiling { 2 * old(self).size } else { old(self).ceiling as int },
            final(self).size >= old(self).size,
    {
        let doubled: u64 = self.size * 2;
        if doubled <= self.ceiling {
            self.size = doubled;
        } else {
            self.size = self.ceiling;
        }
    }

    /// Permanently lower the ceiling after a "range too large" error and
    /// restart from it.  Returns `false`, changing nothing, when the
    /// window is already at the floor: the provider's limit is below
    /// what is fetchable.
    pub fn shrink_for_range(&mut self) -> (r: bool)
        requires
            old(self).wf(),
        ensures
            final(self).wf(),
            final(self).ceiling <= old(self).ceiling,
            r == (old(self).size > BATCH_MIN),
            !r ==> *final(self) == *old(self),
            r ==> {
                &&& final(self).ceiling == if old(self).size / 2 >= BATCH_MIN { (old(self).size / 2) as int } else { BATCH_MIN as int }
                &&& final(self).size == final(self).ceiling
                &&& final(self).ceiling < old(self).ceiling || final(self).ceiling == BATCH_MIN
            },
    {
        if self.size <= BATCH_MIN {
            return false;
        }
        let halved: u64 = self.size / 2;
        self.ceiling = if halved >= BATCH_MIN { halved } else { BATCH_MIN };
        self.size = self.ceiling;
        true
    }

    /// Halve the window without touching the ceiling (transient recovery).
    pub fn shrink_transient(&mut self)
        requires
            old(self).wf(),
        ensures
            final(self).wf(),
            final(self).ceiling == old(self).ceiling,
            final(self).size == if old(self).size / 2 >= BATCH_MIN { (old(self).size / 2) as int } else { BATCH_MIN as int },
            final(self).size <= old(self).size,
    {
        let halved: u64 = self.size / 2;
        self.size = if halved >= BATCH_MIN { halved } else { BATCH_MIN };
    }
}

} // verus!
