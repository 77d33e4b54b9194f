//! Instrumentation: latency spans, round-trip-time counters with an
//! exponential moving average, and per-category error counters.

use vstd::prelude::*;
use std::time::{Duration, Instant};

verus! {

#[verifier::external_type_specification]
#[verifier::external_body]
pub struct ExInstant(Instant);

/// The current monotonic instant (std `Instant::now`).
#[verifier::external_body]
fn instant_now() -> Instant {
    Instant::now()
}

/// Time elapsed since `start` (std `Instant::elapsed`).
#[verifier::external_body]
fn elapsed_since(start: &Instant) -> Duration {
    start.elapsed()
}

/// Whole nanoseconds of a duration (std `Duration::as_nanos`).
#[verifier::external_body]
pub(crate) fn whole_nanos(d: &Duration) -> u128 {
    d.as_nanos()
}

/// A nanosecond count kept in 64 bits: its value modulo 2^64.
pub fn truncated_ns(n: u128) -> (r: u64)
    ensures
        r == n % 0x1_0000_0000_0000_0000,
{
    assert(n as u64 == n % 0x1_0000_0000_0000_0000) by (bit_vector);
    n as u64
}

/// Latency span for the T1–T6 decomposition (serialization, transport,
/// queue, inference, transport back, deserialization).
#[derive(Debug)]
pub struct LatencySpan {
    pub name: &'static str,
    start: Instant,
}

impl LatencySpan {
    /// The name the span was started with.
    pub closed spec fn named(&self) -> &'static str {
        self.name
    }

    /// Starts a span named `name`.
    pub fn start(name: &'static str) -> (r: Self)
        ensures
            r.named() == name,
    {
        LatencySpan { name, start: instant_now() }
    }

    /// Ends the span; the elapsed time in nanoseconds, truncated to 64 bits
    /// (see [`truncated_ns`]). The reading itself depends on the clock, so
    /// nothing is promised of its value.
    pub fn finish(self) -> (ns: u64) {
        let d = elapsed_since(&self.start);
        truncated_ns(whole_nanos(&d))
    }
}

/// Counter state of an [`RttTracker`].
pub struct RttView {
    pub count: u64,
    pub total_ns: u64,
    pub ema_ns: u64,
}

/// Round-trip-time counter with an exponential moving average.
#[derive(Debug)]
pub struct RttTracker {
    count: u64,
    total_ns: u64,
    ema_ns: u64,
}

impl View for RttTracker {
    type V = RttView;

    closed spec fn view(&self) -> RttView {
        RttView { count: self.count, total_ns: self.total_ns, ema_ns: self.ema_ns }
    }
}

/// The EMA after observing `rtt_ns`: the first sample (EMA still zero) is
/// taken as is; later ones use `blended`, the step `0.9·old + 0.1·rtt`.
pub open spec fn ema_after(old_ema: u64, rtt_ns: u64, blended: u64) -> u64 {
    if old_ema == 0 {
        rtt_ns
    } else {
        blended
    }
}

/// Mean of `total` over `count` samples, zero when there is none.
pub open spec fn mean_of(total: u64, count: u64) -> u64 {
    if count == 0 {
        0
    } else {
        (total / count) as u64
    }
}

impl Default for RttTracker {
    fn default() -> (r: Self)
        ensures
            r@.count == 0 && r@.total_ns == 0 && r@.ema_ns == 0,
    {
        Self::new()
    }
}

impl RttTracker {
    /// An empty tracker.
    pub fn new() -> (r: Self)
        ensures
            r@.count == 0,
            r@.total_ns == 0,
            r@.ema_ns == 0,
    {
        RttTracker { count: 0, total_ns: 0, ema_ns: 0 }
    }

    /// Records one measurement. Counters wrap on overflow; `blended` is the
    /// caller's EMA step `0.9·ema + 0.1·rtt_ns` (floating point, truncated),
    /// used once a first sample has set the average.
    pub fn record(&mut self, rtt_ns: u64, blended: u64)
        ensures
            final(self)@.count == old(self)@.count.wrapping_add(1),
            final(self)@.total_ns == old(self)@.total_ns.wrapping_add(rtt_ns),
            final(self)@.ema_ns == ema_after(old(self)@.ema_ns, rtt_ns, blended),
    {
        self.count = self.count.wrapping_add(1);
        self.total_ns = self.total_ns.wrapping_add(rtt_ns);
        self.ema_ns = if self.ema_ns == 0 { rtt_ns } else { blended };
    }

    /// Mean RTT in nanoseconds (zero before the first sample).
    pub fn mean_ns(&self) -> (r: u64)
        ensures
            r == mean_of(self@.total_ns, self@.count),
    {
        match self.total_ns.checked_div(self.count) {
            Some(m) => m,
            None => 0,
        }
    }

    /// Current EMA in nanoseconds.
    pub fn ema_ns(&self) -> (r: u64)
        ensures
            r == self@.ema_ns,
    {
        self.ema_ns
    }

    /// Number of measurements.
    pub fn count(&self) -> (r: u64)
        ensures
            r == self@.count,
    {
        self.count
    }

    /// Back to the empty state.
    pub fn reset(&mut self)
        ensures
            final(self)@.count == 0,
            final(self)@.total_ns == 0,
            final(self)@.ema_ns == 0,
    {
        self.count = 0;
        self.total_ns = 0;
        self.ema_ns = 0;
    }
}

/// Counter state of an [`ErrorCounter`]: total and the eight categories.
pub struct ErrorView {
    pub total: u64,
    pub by_category: Seq<u64>,
}

/// Number of error categories kept (0–7).
pub const CATEGORIES: usize = 8;

/// Error counter by category.
#[derive(Debug)]
pub struct ErrorCounter {
    total: u64,
    by_category: [u64; 8],
}

impl View for ErrorCounter {
    type V = ErrorView;

    closed spec fn view(&self) -> ErrorView {
        ErrorView { total: self.total, by_category: self.by_category@ }
    }
}

/// The category counts after one error in `category`: unknown categories
/// only count toward the total.
pub open spec fn bump(counts: Seq<u64>, category: usize) -> Seq<u64> {
    if category < counts.len() {
        counts.update(category as int, counts[category as int].wrapping_add(1))
    } else {
        counts
    }
}

/// The count of a category, zero outside the eight kept.
pub open spec fn count_in(counts: Seq<u64>, category: usize) -> u64 {
    if category < counts.len() {
        counts[category as int]
    } else {
        0
    }
}

/// One error in category `c` raises that category's count by one (when
/// `c` is one of the eight kept) and leaves every other category as it was;
/// the eight categories stay eight.
pub proof fn lemma_record_counts(counts: Seq<u64>, c: usize, i: usize)
    requires
        counts.len() == 8,
    ensures
        bump(counts, c).len() == 8,
        count_in(bump(counts, c), i) == if i == c && c < 8 {
            count_in(counts, i).wrapping_add(1)
        } else {
            count_in(counts, i)
        },
{
}

impl Default for ErrorCounter {
    fn default() -> (r: Self)
        ensures
            r@.total == 0,
            r@.by_category == Seq::new(8, |i: int| 0u64),
    {
        Self::new()
    }
}

impl ErrorCounter {
    /// A counter keeps exactly the eight categories.
    pub proof fn lemma_eight_categories(&self)
        ensures
            self@.by_category.len() == 8,
    {
    }

    /// An empty counter.
    pub fn new() -> (r: Self)
        ensures
            r@.total == 0,
            r@.by_category == Seq::new(8, |i: int| 0u64),
    {
        let r = ErrorCounter { total: 0, by_category: [0u64; 8] };
        assert(r.by_category@ =~= Seq::new(8, |i: int| 0u64));
        r
    }

    /// Records an error in `category` (0–7; others only raise the total).
    pub fn record(&mut self, category: usize)
        ensures
            final(self)@.total == old(self)@.total.wrapping_add(1),
            final(self)@.by_category == bump(old(self)@.by_category, category),
            final(self)@.by_category.len() == 8,
    {
        self.total = self.total.wrapping_add(1);
        if category < 8 {
            let v = self.by_category[category].wrapping_add(1);
            self.by_category[category] = v;
        }
        assert(self.by_category@ =~= bump(old(self).by_category@, category));
    }

    /// Total errors.
    pub fn total(&self) -> (r: u64)
        ensures
            r == self@.total,
    {
        self.total
    }

    /// Errors in `category` (zero outside 0–7).
    pub fn by_category(&self, category: usize) -> (r: u64)
        ensures
            r == count_in(self@.by_category, category),
    {
        if category < 8 {
            self.by_category[category]
        } else {
            0
        }
    }
}

} // verus!
