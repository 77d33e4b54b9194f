//! Trackers: token counts, round-trip times, errors by category and cost.

use vstd::prelude::*;

pub use crate::common::instrumentation::{RttTracker, RttView, ErrorView, bump, count_in, lemma_record_counts};

verus! {

/// Counter state of a [`TokenCounter`].
pub struct TokenView {
    pub total_prompt: u64,
    pub total_completion: u64,
    pub count: u64,
}

/// Token counter (prompt + completion).
#[derive(Debug)]
pub struct TokenCounter {
    total_prompt: u64,
    total_completion: u64,
    count: u64,
}

impl View for TokenCounter {
    type V = TokenView;

    closed spec fn view(&self) -> TokenView {
        TokenView {
            total_prompt: self.total_prompt,
            total_completion: self.total_completion,
            count: self.count,
        }
    }
}

impl Default for TokenCounter {
    fn default() -> (r: Self)
        ensures
            r@.total_prompt == 0 && r@.total_completion == 0 && r@.count == 0,
    {
        Self::new()
    }
}

impl TokenCounter {
    /// A counter with nothing recorded.
    pub fn new() -> (r: Self)
        ensures
            r@.total_prompt == 0,
            r@.total_completion == 0,
            r@.count == 0,
    {
        TokenCounter { total_prompt: 0, total_completion: 0, count: 0 }
    }

    /// Records one call's tokens (counters wrap on overflow).
    pub fn record(&mut self, prompt: u64, completion: u64)
        ensures
            final(self)@.total_prompt == old(self)@.total_prompt.wrapping_add(prompt),
            final(self)@.total_completion == old(self)@.total_completion.wrapping_add(completion),
            final(self)@.count == old(self)@.count.wrapping_add(1),
    {
        self.total_prompt = self.total_prompt.wrapping_add(prompt);
        self.total_completion = self.total_completion.wrapping_add(completion);
        self.count = self.count.wrapping_add(1);
    }

    /// Prompt tokens so far.
    pub fn total_prompt(&self) -> (r: u64)
        ensures
            r == self@.total_prompt,
    {
        self.total_prompt
    }

    /// Completion tokens so far.
    pub fn total_completion(&self) -> (r: u64)
        ensures
            r == self@.total_completion,
    {
        self.total_completion
    }

    /// Prompt plus completion tokens.
    pub fn total(&self) -> (r: u64)
        requires
            self@.total_prompt + self@.total_completion <= u64::MAX,
        ensures
            r == self@.total_prompt + self@.total_completion,
    {
        self.total_prompt + self.total_completion
    }

    /// Number of recorded calls.
    pub fn count(&self) -> (r: u64)
        ensures
            r == self@.count,
    {
        self.count
    }

    /// Back to nothing recorded.
    pub fn reset(&mut self)
        ensures
            final(self)@.total_prompt == 0,
            final(self)@.total_completion == 0,
            final(self)@.count == 0,
    {
        self.total_prompt = 0;
        self.total_completion = 0;
        self.count = 0;
    }
}

/// Error tracker by category (0–7), resettable.
#[derive(Debug)]
pub struct ErrorTracker {
    total: u64,
    by_category: [u64; 8],
}

impl View for ErrorTracker {
    type V = ErrorView;

    closed spec fn view(&self) -> ErrorView {
        ErrorView { total: self.total, by_category: self.by_category@ }
    }
}

impl Default for ErrorTracker {
    fn default() -> (r: Self)
        ensures
            r@.total == 0,
            r@.by_category == Seq::new(8, |i: int| 0u64),
    {
        Self::new()
    }
}

impl ErrorTracker {
    /// A tracker keeps exactly the eight categories.
    pub proof fn lemma_eight_categories(&self)
        ensures
            self@.by_category.len() == 8,
    {
    }

    /// A tracker with no errors.
    pub fn new() -> (r: Self)
        ensures
            r@.total == 0,
            r@.by_category == Seq::new(8, |i: int| 0u64),
    {
        let r = ErrorTracker { total: 0, by_category: [0u64; 8] };
        assert(r.by_category@ =~= Seq::new(8, |i: int| 0u64));
        r
    }

    /// Records an error in `category` (0–7; others only raise the total).
    pub fn record(&mut self, category: usize)
        ensures
            final(self)@.total == old(self)@.total.wrapping_add(1),
            final(self)@.by_category == bump(old(self)@.by_category, category),
            final(self)@.by_category.len() == 8,
    {
        self.total = self.total.wrapping_add(1);
        if category < 8 {
            let v = self.by_category[category].wrapping_add(1);
            self.by_category[category] = v;
        }
        assert(self.by_category@ =~= bump(old(self).by_category@, category));
    }

    /// Total errors.
    pub fn total(&self) -> (r: u64)
        ensures
            r == self@.total,
    {
        self.total
    }

    /// Errors in `category` (zero outside 0–7).
    pub fn by_category(&self, category: usize) -> (r: u64)
        ensures
            r == count_in(self@.by_category, category),
    {
        if category < 8 {
            self.by_category[category]
        } else {
            0
        }
    }

    /// Back to no errors.
    pub fn reset(&mut self)
        ensures
            final(self)@.total == 0,
            final(self)@.by_category == Seq::new(8, |i: int| 0u64),
    {
        self.total = 0;
        self.by_category = [0u64; 8];
        assert(self.by_category@ =~= Seq::new(8, |i: int| 0u64));
    }
}

/// Counter state of a [`CostTracker`], in micro-dollars.
pub struct CostView {
    pub total_micro_usd: u64,
    pub count: u64,
}

/// Cost tracker; amounts are kept in micro-dollars for precision. The
/// conversion from and to dollars (floating point) is the caller's.
#[derive(Debug)]
pub struct CostTracker {
    total_micro_usd: u64,
    count: u64,
}

impl View for CostTracker {
    type V = CostView;

    closed spec fn view(&self) -> CostView {
        CostView { total_micro_usd: self.total_micro_usd, count: self.count }
    }
}

impl Default for CostTracker {
    fn default() -> (r: Self)
        ensures
            r@.total_micro_usd == 0 && r@.count == 0,
    {
        Self::new()
    }
}

impl CostTracker {
    /// A tracker with no cost recorded.
    pub fn new() -> (r: Self)
        ensures
            r@.total_micro_usd == 0,
            r@.count == 0,
    {
        CostTracker { total_micro_usd: 0, count: 0 }
    }

    /// Records one cost, already converted to micro-dollars (wraps on overflow).
    pub fn record_micro_usd(&mut self, micro_usd: u64)
        ensures
            final(self)@.total_micro_usd == old(self)@.total_micro_usd.wrapping_add(micro_usd),
            final(self)@.count == old(self)@.count.wrapping_add(1),
    {
        self.total_micro_usd = self.total_micro_usd.wrapping_add(micro_usd);
        self.count = self.count.wrapping_add(1);
    }

    /// Total cost in micro-dollars.
    pub fn total_micro_usd(&self) -> (r: u64)
        ensures
            r == self@.total_micro_usd,
    {
        self.total_micro_usd
    }

    /// Number of recorded costs.
    pub fn count(&self) -> (r: u64)
        ensures
            r == self@.count,
    {
        self.count
    }

    /// Back to no cost recorded.
    pub fn reset(&mut self)
        ensures
            final(self)@.total_micro_usd == 0,
            final(self)@.count == 0,
    {
        self.total_micro_usd = 0;
        self.count = 0;
    }
}

} // verus!
