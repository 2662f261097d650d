//! Aggregated results of a batch run.
//!
//! The batch driver folds every resolved job into a `Statistics` value,
//! strictly sequentially: `shrink` and `grow` for measured conversions,
//! `skip` and `fail` for the rest.

use vstd::prelude::*;

pub use crate::delta::Delta;

verus! {

/// Running totals over one batch: how many files shrunk, grew, were
/// skipped or failed, and the byte totals processed, saved and wasted.
#[derive(Clone, Copy, Debug, PartialEq, Eq, Structural)]
pub struct Statistics {
    pub processed: u64,
    pub saved: u64,
    pub wasted: u64,
    pub shrunk: usize,
    pub grew: usize,
    pub skipped: usize,
    pub failed: usize,
}

impl Default for Statistics {
    fn default() -> (r: Self)
        ensures
            r == Statistics::empty(),
    {
        Statistics { processed: 0, saved: 0, wasted: 0, shrunk: 0, grew: 0, skipped: 0, failed: 0 }
    }
}

impl Statistics {
    pub open spec fn empty() -> Statistics {
        Statistics { processed: 0, saved: 0, wasted: 0, shrunk: 0, grew: 0, skipped: 0, failed: 0 }
    }

    /// The sizes never run ahead of each other: what was saved was part of
    /// what was processed, and the total of the new sizes
    /// (`processed - saved + wasted`) stays within range.
    pub open spec fn wf(self) -> bool {
        &&& self.saved <= self.processed
        &&& self.processed - self.saved + self.wasted <= u64::MAX
    }

    /// The total of the output sizes of all measured conversions.
    pub open spec fn spec_new_total(self) -> int {
        self.processed - self.saved + self.wasted
    }

    /// Record a conversion that did not grow the file.
    pub fn shrink(&mut self, delta: Delta)
        requires
            old(self).wf(),
            delta.original >= delta.new,
            old(self).processed + delta.original <= u64::MAX,
            old(self).spec_new_total() + delta.new <= u64::MAX,
            old(self).shrunk < usize::MAX,
        ensures
            final(self).processed == old(self).processed + delta.original,
            final(self).saved == old(self).saved + delta.spec_difference(),
            final(self).shrunk == old(self).shrunk + 1,
            final(self).wasted == old(self).wasted,
            final(self).grew == old(self).grew,
            final(self).skipped == old(self).skipped,
            final(self).failed == old(self).failed,
            final(self).wf(),
    {
        self.processed = self.processed + delta.original;
        self.saved = self.saved + delta.difference();
        self.shrunk = self.shrunk + 1;
    }

    /// Record a conversion that grew the file.
    pub fn grow(&mut self, delta: Delta)
        requires
            old(self).wf(),
            delta.original <= delta.new,
            old(self).processed + delta.original <= u64::MAX,
            old(self).spec_new_total() + delta.new <= u64::MAX,
            old(self).grew < usize::MAX,
        ensures
            final(self).processed == old(self).processed + delta.original,
            final(self).wasted == old(self).wasted + delta.spec_difference(),
            final(self).grew == old(self).grew + 1,
            final(self).saved == old(self).saved,
            final(self).shrunk == old(self).shrunk,
            final(self).skipped == old(self).skipped,
            final(self).failed == old(self).failed,
            final(self).wf(),
    {
        self.processed = self.processed + delta.original;
        self.wasted = self.wasted + delta.difference();
        self.grew = self.grew + 1;
    }

    /// Record a skipped input (unsupported, or already converted).
    pub fn skip(&mut self)
        requires
            old(self).skipped < usize::MAX,
        ensures
            *final(self) == (Statistics { skipped: (old(self).skipped + 1) as usize, ..*old(self) }),
    {
        self.skipped = self.skipped + 1;
    }

    /// Record a failed invocation.
    pub fn fail(&mut self)
        requires
            old(self).failed < usize::MAX,
        ensures
            *final(self) == (Statistics { failed: (old(self).failed + 1) as usize, ..*old(self) }),
    {
        self.failed = self.failed + 1;
    }

    pub fn shrunk_files(&self) -> (r: usize)
        ensures
            r == self.shrunk,
    {
        self.shrunk
    }

    pub fn grew_files(&self) -> (r: usize)
        ensures
            r == self.grew,
    {
        self.grew
    }

    pub fn skipped_files(&self) -> (r: usize)
        ensures
            r == self.skipped,
    {
        self.skipped
    }

    pub fn failed_files(&self) -> (r: usize)
        ensures
            r == self.failed,
    {
        self.failed
    }

    pub fn saved_bytes(&self) -> (r: u64)
        ensures
            r == self.saved,
    {
        self.saved
    }

    pub fn wasted_bytes(&self) -> (r: u64)
        ensures
            r == self.wasted,
    {
        self.wasted
    }

    /// The synthetic aggregate over the whole run: all bytes processed
    /// against the total of the output sizes.
    pub fn delta(&self) -> (r: Delta)
        requires
            self.wf(),
        ensures
            r.original == self.processed,
            r.new == self.spec_new_total(),
    {
        Delta::new(self.processed, self.processed - self.saved + self.wasted)
    }
}

} // verus!
