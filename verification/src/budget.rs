//! The budget that bounds highlight extraction within one search.
//!
//! Extraction is tried result by result while the budget is open. It closes
//! for good once enough files were tried or enough of them had highlights.

use vstd::prelude::*;

verus! {

/// Most files for which extraction is tried in one search.
pub const MAX_TOTAL_HIGHLIGHT_SEARCHES: u32 = 11;

/// Most files with at least one highlight before extraction stops.
pub const MAX_FILES_WITH_HIGHLIGHTS: u32 = 7;

/// Counters of one search.
pub struct HighlightBudget {
    requested: bool,
    attempted: u32,
    with_highlights: u32,
}

impl HighlightBudget {
    /// Whether highlights were asked for in this search.
    pub closed spec fn requested(&self) -> bool {
        self.requested
    }

    /// Number of files for which extraction was tried.
    pub closed spec fn attempted(&self) -> nat {
        self.attempted as nat
    }

    /// Number of files whose extraction gave at least one highlight.
    pub closed spec fn with_highlights(&self) -> nat {
        self.with_highlights as nat
    }

    /// The counters never pass their limits, and a file counts as having
    /// highlights only if it was tried.
    pub closed spec fn wf(&self) -> bool {
        &&& self.with_highlights <= self.attempted
        &&& self.attempted <= MAX_TOTAL_HIGHLIGHT_SEARCHES
        &&& self.with_highlights <= MAX_FILES_WITH_HIGHLIGHTS
    }

    /// Whether extraction is still to be tried for the next file.
    pub open spec fn is_open(&self) -> bool {
        &&& self.requested()
        &&& self.attempted() < MAX_TOTAL_HIGHLIGHT_SEARCHES
        &&& self.with_highlights() < MAX_FILES_WITH_HIGHLIGHTS
    }

    /// A budget with nothing spent.
    pub fn new(requested: bool) -> (budget: Self)
        ensures
            budget.wf(),
            budget.requested() == requested,
            budget.attempted() == 0,
            budget.with_highlights() == 0,
    {
        HighlightBudget { requested, attempted: 0, with_highlights: 0 }
    }

    /// Whether extraction is to be tried for the next file.
    pub fn should_search(&self) -> (open: bool)
        ensures
            open == self.is_open(),
    {
        self.requested && self.attempted < MAX_TOTAL_HIGHLIGHT_SEARCHES && self.with_highlights
            < MAX_FILES_WITH_HIGHLIGHTS
    }

    /// Whether highlights were asked for in this search.
    pub fn should_request(&self) -> (wanted: bool)
        ensures
            wanted == self.requested(),
    {
        self.requested
    }

    /// Number of files for which extraction was tried.
    pub fn attempts(&self) -> (n: u32)
        ensures
            n == self.attempted(),
    {
        self.attempted
    }

    /// Number of files whose extraction gave at least one highlight.
    pub fn files_with_highlights(&self) -> (n: u32)
        ensures
            n == self.with_highlights(),
    {
        self.with_highlights
    }

    /// Counts one extraction and whether it found anything.
    pub fn record_attempt(&mut self, found_any: bool)
        requires
            old(self).wf(),
            old(self).is_open(),
        ensures
            final(self).wf(),
            final(self).requested() == old(self).requested(),
            final(self).attempted() == old(self).attempted() + 1,
            final(self).with_highlights() == old(self).with_highlights() + if found_any {
                1nat
            } else {
                0nat
            },
    {
        self.attempted = self.attempted + 1;
        if found_any {
            self.with_highlights = self.with_highlights + 1;
        }
    }
}

/// Once closed, a budget that was asked for stays closed whatever is counted
/// afterwards: counters only grow.
pub proof fn lemma_closed_stays_closed(before: HighlightBudget, after: HighlightBudget)
    requires
        !before.is_open(),
        after.requested() == before.requested(),
        after.attempted() >= before.attempted(),
        after.with_highlights() >= before.with_highlights(),
    ensures
        !after.is_open(),
{
}

} // verus!
