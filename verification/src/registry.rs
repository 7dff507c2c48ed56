//! The metrics registry: a monotone error counter and a latency histogram
//! with fixed bucket bounds.
//!
//! Latencies are carried as whole nanoseconds, so every published value is an
//! integer. The histogram stores its thirteen bucket counts cumulatively: an
//! observation of `v` nanoseconds raises the count of every bucket whose
//! upper bound is at least `v`, together with the running sum and the total
//! observation count. The implicit `+Inf` bucket is the total count itself.
//! All counters saturate at `u64::MAX` instead of wrapping, which keeps them
//! monotonically non-decreasing under every sequence of updates.

use vstd::prelude::*;

verus! {

/// Number of finite bucket bounds of the latency histogram.
pub const NUM_BUCKETS: usize = 13;

/// Upper bound, in nanoseconds, of cumulative bucket `i`: the fixed bounds
/// 0.0001 s, 0.00025 s, 0.0005 s, 0.001 s, 0.0025 s, 0.005 s, 0.01 s,
/// 0.025 s, 0.05 s, 0.1 s, 0.25 s, 0.5 s and 1 s.
pub open spec fn bucket_bound_ns(i: int) -> u64 {
    if i <= 0 {
        100_000
    } else if i == 1 {
        250_000
    } else if i == 2 {
        500_000
    } else if i == 3 {
        1_000_000
    } else if i == 4 {
        2_500_000
    } else if i == 5 {
        5_000_000
    } else if i == 6 {
        10_000_000
    } else if i == 7 {
        25_000_000
    } else if i == 8 {
        50_000_000
    } else if i == 9 {
        100_000_000
    } else if i == 10 {
        250_000_000
    } else if i == 11 {
        500_000_000
    } else {
        1_000_000_000
    }
}

/// Upper bound of bucket `i`, in nanoseconds.
pub fn bucket_bound(i: usize) -> (b: u64)
    requires
        i < NUM_BUCKETS,
    ensures
        b == bucket_bound_ns(i as int),
{
    if i == 0 {
        100_000
    } else if i == 1 {
        250_000
    } else if i == 2 {
        500_000
    } else if i == 3 {
        1_000_000
    } else if i == 4 {
        2_500_000
    } else if i == 5 {
        5_000_000
    } else if i == 6 {
        10_000_000
    } else if i == 7 {
        25_000_000
    } else if i == 8 {
        50_000_000
    } else if i == 9 {
        100_000_000
    } else if i == 10 {
        250_000_000
    } else if i == 11 {
        500_000_000
    } else {
        1_000_000_000
    }
}

/// `x + 1`, saturating at `u64::MAX`.
pub open spec fn sat_inc(x: u64) -> u64 {
    if x == u64::MAX {
        x
    } else {
        (x + 1) as u64
    }
}

/// `x + y`, saturating at `u64::MAX`.
pub open spec fn sat_sum(x: u64, y: u64) -> u64 {
    if x + y <= u64::MAX {
        (x + y) as u64
    } else {
        u64::MAX
    }
}

/// Mathematical state of a registry: the error counter, the thirteen
/// cumulative bucket counts, the latency sum in nanoseconds and the total
/// observation count.
#[verifier::ext_equal]
pub ghost struct RegistryView {
    pub errors: u64,
    pub buckets: Seq<u64>,
    pub sum_ns: u64,
    pub count: u64,
}

impl RegistryView {
    /// Histogram well-formedness: thirteen cumulative counts, non-decreasing
    /// from the smallest bound up, and none above the total count (the
    /// implicit `+Inf` bucket).
    pub open spec fn inv(self) -> bool {
        &&& self.buckets.len() == NUM_BUCKETS
        &&& forall|i: int, j: int|
            0 <= i <= j < NUM_BUCKETS ==> self.buckets[i] <= self.buckets[j]
        &&& self.buckets[NUM_BUCKETS - 1] <= self.count
    }

    /// The state every registry starts in: all counters zero.
    pub open spec fn is_fresh(self) -> bool {
        &&& self.errors == 0
        &&& self.sum_ns == 0
        &&& self.count == 0
        &&& self.buckets.len() == NUM_BUCKETS
        &&& forall|i: int| 0 <= i < NUM_BUCKETS ==> self.buckets[i] == 0u64
    }

    /// State after one latency observation of `ns` nanoseconds: every bucket
    /// whose bound is at least `ns` is raised by one, as are the sum and the
    /// count; the error counter is untouched.
    pub open spec fn after_observe(self, ns: u64) -> RegistryView {
        RegistryView {
            errors: self.errors,
            buckets: Seq::new(
                self.buckets.len(),
                |i: int|
                    if ns <= bucket_bound_ns(i) {
                        sat_inc(self.buckets[i])
                    } else {
                        self.buckets[i]
                    },
            ),
            sum_ns: sat_sum(self.sum_ns, ns),
            count: sat_inc(self.count),
        }
    }

    /// State after one failed cycle: only the error counter is raised.
    pub open spec fn after_error(self) -> RegistryView {
        RegistryView { errors: sat_inc(self.errors), ..self }
    }
}

/// The process-wide metrics registry. Created once at startup, written by the
/// probe loop, rendered on demand; it is never reset.
pub struct MetricsRegistry {
    errors_total: u64,
    buckets: Vec<u64>,
    sum_ns: u64,
    count: u64,
}

impl View for MetricsRegistry {
    type V = RegistryView;

    closed spec fn view(&self) -> RegistryView {
        RegistryView {
            errors: self.errors_total,
            buckets: self.buckets@,
            sum_ns: self.sum_ns,
            count: self.count,
        }
    }
}

impl MetricsRegistry {
    /// A fresh registry with every counter at zero.
    pub fn new() -> (r: MetricsRegistry)
        ensures
            r@.is_fresh(),
            r@.inv(),
    {
        let mut buckets: Vec<u64> = Vec::new();
        let mut i: usize = 0;
        while i < NUM_BUCKETS
            invariant
                i <= NUM_BUCKETS,
                buckets@.len() == i,
                forall|j: int| 0 <= j < i ==> buckets@[j] == 0u64,
            decreases NUM_BUCKETS - i,
        {
            buckets.push(0);
            i += 1;
        }
        MetricsRegistry { errors_total: 0, buckets, sum_ns: 0, count: 0 }
    }

    /// Record one failed probe cycle: raises `errors_total` by one
    /// (saturating) and touches nothing else.
    pub fn increment_errors(&mut self)
        ensures
            final(self)@ == old(self)@.after_error(),
    {
        if self.errors_total < u64::MAX {
            self.errors_total = self.errors_total + 1;
        }
        proof {
            assert(self@ =~= old(self)@.after_error());
        }
    }

    /// Record one successful probe cycle's latency of `latency_ns`
    /// nanoseconds: raises every cumulative bucket whose bound is at least
    /// `latency_ns`, the sum and the count, each saturating.
    pub fn observe_ns(&mut self, latency_ns: u64)
        requires
            old(self)@.inv(),
        ensures
            final(self)@ == old(self)@.after_observe(latency_ns),
            final(self)@.inv(),
    {
        let mut i: usize = 0;
        while i < NUM_BUCKETS
            invariant
                i <= NUM_BUCKETS,
                self@.buckets.len() == NUM_BUCKETS,
                self@.errors == old(self)@.errors,
                self@.sum_ns == old(self)@.sum_ns,
                self@.count == old(self)@.count,
                forall|j: int|
                    0 <= j < i ==> self@.buckets[j] == (if latency_ns <= bucket_bound_ns(j) {
                        sat_inc(old(self)@.buckets[j])
                    } else {
                        old(self)@.buckets[j]
                    }),
                forall|j: int| i <= j < NUM_BUCKETS ==> self@.buckets[j] == old(self)@.buckets[j],
            decreases NUM_BUCKETS - i,
        {
            if latency_ns <= bucket_bound(i) {
                let v = self.buckets[i];
                if v < u64::MAX {
                    self.buckets[i] = v + 1;
                }
            }
            i += 1;
        }
        if self.count < u64::MAX {
            self.count = self.count + 1;
        }
        if latency_ns <= u64::MAX - self.sum_ns {
            self.sum_ns = self.sum_ns + latency_ns;
        } else {
            self.sum_ns = u64::MAX;
        }
        proof {
            assert(self@ =~= old(self)@.after_observe(latency_ns));
        }
    }

    /// Current value of the error counter.
    pub fn errors_total(&self) -> (r: u64)
        ensures
            r == self@.errors,
    {
        self.errors_total
    }

    /// Current total number of latency observations.
    pub fn count(&self) -> (r: u64)
        ensures
            r == self@.count,
    {
        self.count
    }

    /// Current latency sum, in nanoseconds.
    pub fn sum_ns(&self) -> (r: u64)
        ensures
            r == self@.sum_ns,
    {
        self.sum_ns
    }

    /// Current cumulative count of bucket `i`.
    pub fn bucket_count(&self, i: usize) -> (r: u64)
        requires
            self@.inv(),
            i < NUM_BUCKETS,
        ensures
            r == self@.buckets[i as int],
    {
        self.buckets[i]
    }
}

/// Histogram monotonicity: in a well-formed registry the cumulative count at
/// a smaller bound never exceeds the cumulative count at a larger one, and no
/// bucket's count exceeds the total observation count, which is the `+Inf`
/// bucket's value.
pub proof fn lemma_histogram_monotone(v: RegistryView)
    requires
        v.inv(),
    ensures
        forall|i: int, j: int| 0 <= i <= j < NUM_BUCKETS ==> v.buckets[i] <= v.buckets[j],
        forall|i: int| 0 <= i < NUM_BUCKETS ==> v.buckets[i] <= v.count,
{
}

} // verus!
