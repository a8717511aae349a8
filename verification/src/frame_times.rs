//! Frame-time bookkeeping for the diagnostics overlay.
//!
//! The render thread records each frame's measured wall time in
//! milliseconds. The overlay shows two figures: the average over a sliding
//! window of the most recent frames, and the average over every frame so
//! far. Both are integer averages, rounded down.

use vstd::prelude::*;
use vstd::arithmetic::div_mod::lemma_div_is_ordered;
use vstd::arithmetic::div_mod::lemma_div_multiples_vanish;
use vstd::arithmetic::mul::lemma_mul_inequality;
use vstd::arithmetic::mul::lemma_mul_is_distributive_add;

verus! {

/// How many recent frames the sliding window covers.
pub const FRAME_TIME_WINDOW: usize = 30;

/// Sum of a sequence of frame times.
pub open spec fn seq_sum(s: Seq<u32>) -> int
    decreases s.len(),
{
    if s.len() == 0 {
        0
    } else {
        s[0] + seq_sum(s.drop_first())
    }
}

/// Summing distributes over concatenation.
pub proof fn lemma_seq_sum_append(a: Seq<u32>, b: Seq<u32>)
    ensures
        seq_sum(a + b) == seq_sum(a) + seq_sum(b),
    decreases a.len(),
{
    if a.len() == 0 {
        assert(a + b =~= b);
    } else {
        assert((a + b).drop_first() =~= a.drop_first() + b);
        lemma_seq_sum_append(a.drop_first(), b);
        assert((a + b)[0] == a[0]);
    }
}

/// Extending the summed prefix by one sample adds exactly that sample.
pub proof fn lemma_seq_sum_snoc(s: Seq<u32>, i: int)
    requires
        0 <= i < s.len(),
    ensures
        seq_sum(s.take(i + 1)) == seq_sum(s.take(i)) + s[i],
{
    assert(s.take(i + 1) =~= s.take(i) + seq![s[i]]);
    lemma_seq_sum_append(s.take(i), seq![s[i]]);
    assert(seq![s[i]].drop_first() =~= Seq::<u32>::empty());
    assert(seq_sum(seq![s[i]].drop_first()) == 0);
    assert(seq![s[i]][0] == s[i]);
}

/// The two frame-time averages the diagnostics overlay reports.
#[derive(Debug, PartialEq)]
pub struct FrameTimes {
    /// The most recent samples, oldest first, at most `window` of them.
    pub samples: Vec<u32>,
    /// Size of the sliding window; at least one, and small enough that a
    /// window's worth of samples sums within a machine word.
    pub window: usize,
    /// Sum of every sample ever recorded.
    pub total_sum: u128,
    /// Number of samples ever recorded.
    pub total_count: u64,
}

impl FrameTimes {
    /// The window is usable and the running totals are consistent enough
    /// for their average to fit a sample's range.
    pub open spec fn well_formed(self) -> bool {
        &&& 1 <= self.window <= u32::MAX
        &&& self.samples@.len() <= self.window
        &&& self.total_sum <= self.total_count * (u32::MAX as int)
    }

    /// Empty bookkeeping over a window of `window` frames.
    pub fn new(window: usize) -> (t: FrameTimes)
        requires
            1 <= window <= u32::MAX,
        ensures
            t.samples@ == Seq::<u32>::empty(),
            t.window == window,
            t.total_sum == 0,
            t.total_count == 0,
            t.well_formed(),
    {
        FrameTimes { samples: Vec::new(), window, total_sum: 0, total_count: 0 }
    }

    /// Record one frame's measured time: the window slides (the oldest
    /// sample leaves once the window is full) and the running totals grow.
    pub fn add(&mut self, ms: u32)
        requires
            old(self).well_formed(),
            old(self).total_count < u64::MAX,
        ensures
            final(self).window == old(self).window,
            final(self).samples@ == if old(self).samples@.len() < old(self).window {
                old(self).samples@.push(ms)
            } else {
                old(self).samples@.drop_first().push(ms)
            },
            final(self).total_sum == old(self).total_sum + ms,
            final(self).total_count == old(self).total_count + 1,
            final(self).well_formed(),
    {
        if self.samples.len() == self.window {
            self.samples.remove(0);
            proof {
                assert(old(self).samples@.remove(0) =~= old(self).samples@.drop_first());
            }
        }
        self.samples.push(ms);
        proof {
            lemma_mul_inequality(
                old(self).total_count as int,
                u64::MAX as int,
                u32::MAX as int,
            );
            lemma_mul_is_distributive_add(u32::MAX as int, old(self).total_count as int, 1);
        }
        self.total_sum = self.total_sum + ms as u128;
        self.total_count = self.total_count + 1;
        proof {
            let n = old(self).total_count as int;
            assert((n + 1) * (u32::MAX as int) == n * (u32::MAX as int) + u32::MAX)
                by (nonlinear_arith);
        }
    }

    /// Average frame time over the sliding window, rounded down; zero
    /// while no frame has been recorded yet.
    pub fn windowed_average(&self) -> (avg: u32)
        requires
            self.well_formed(),
        ensures
            self.samples@.len() == 0 ==> avg == 0,
            self.samples@.len() > 0 ==> avg == seq_sum(self.samples@) / (
            self.samples@.len() as int),
    {
        if self.samples.len() == 0 {
            return 0;
        }
        let mut sum: u64 = 0;
        let mut i: usize = 0;
        proof {
            assert(self.samples@.take(0) =~= Seq::<u32>::empty());
        }
        while i < self.samples.len()
            invariant
                i <= self.samples@.len() <= u32::MAX,
                sum == seq_sum(self.samples@.take(i as int)),
                sum <= i * (u32::MAX as int),
            decreases self.samples@.len() - i,
        {
            proof {
                lemma_seq_sum_snoc(self.samples@, i as int);
                lemma_mul_inequality(i as int, u32::MAX as int, u32::MAX as int);
                assert((i + 1) * (u32::MAX as int) == i * (u32::MAX as int) + u32::MAX)
                    by (nonlinear_arith);
            }
            sum = sum + self.samples[i] as u64;
            i = i + 1;
        }
        proof {
            assert(self.samples@.take(self.samples@.len() as int) =~= self.samples@);
            let n = self.samples@.len() as int;
            let m = u32::MAX as int;
            lemma_mul_inequality(n, m, m);
            lemma_div_is_ordered(sum as int, n * m, n);
            lemma_div_multiples_vanish(m, n);
            assert(n * m == m * n) by (nonlinear_arith);
        }
        (sum / self.samples.len() as u64) as u32
    }

    /// Average frame time over every frame recorded so far, rounded down;
    /// zero while no frame has been recorded yet.
    pub fn overall_average(&self) -> (avg: u32)
        requires
            self.well_formed(),
        ensures
            self.total_count == 0 ==> avg == 0,
            self.total_count > 0 ==> avg == self.total_sum as int / self.total_count as int,
    {
        if self.total_count == 0 {
            return 0;
        }
        proof {
            let n = self.total_count as int;
            let m = u32::MAX as int;
            lemma_div_is_ordered(self.total_sum as int, n * m, n);
            lemma_div_multiples_vanish(m, n);
            assert(n * m == m * n) by (nonlinear_arith);
        }
        (self.total_sum / self.total_count as u128) as u32
    }
}

} // verus!
