use vstd::prelude::*;

verus! {

/// Sum of a sequence of counts.
pub open spec fn seq_sum(s: Seq<u64>) -> nat
    decreases s.len(),
{
    if s.len() == 0 {
        0
    } else {
        seq_sum(s.drop_last()) + s.last() as nat
    }
}

pub proof fn lemma_sum_zeros(n: nat)
    ensures
        seq_sum(Seq::new(n, |i: int| 0u64)) == 0,
    decreases n,
{
    if n > 0 {
        lemma_sum_zeros((n - 1) as nat);
        assert(Seq::new(n, |i: int| 0u64).drop_last() =~= Seq::new((n - 1) as nat, |i: int| 0u64));
    }
}

/// Raising one count by one raises the sum by one.
pub proof fn lemma_sum_bump(s: Seq<u64>, i: int, x: u64)
    requires
        0 <= i < s.len(),
        x == s[i] + 1,
    ensures
        seq_sum(s.update(i, x)) == seq_sum(s) + 1,
    decreases s.len(),
{
    let t = s.update(i, x);
    if i == s.len() - 1 {
        assert(t.drop_last() =~= s.drop_last());
    } else {
        lemma_sum_bump(s.drop_last(), i, x);
        assert(t.drop_last() =~= s.drop_last().update(i, x));
    }
}

/// A prefix sums to no more than the whole, and one more element adds it.
pub proof fn lemma_prefix_sum(s: Seq<u64>, j: int)
    requires
        0 <= j < s.len(),
    ensures
        seq_sum(s.take(j + 1)) == seq_sum(s.take(j)) + s[j],
        seq_sum(s.take(j + 1)) <= seq_sum(s),
    decreases s.len(),
{
    assert(s.take(j + 1).drop_last() =~= s.take(j));
    if j + 1 == s.len() {
        assert(s.take(j + 1) =~= s);
    } else {
        lemma_prefix_sum(s.drop_last(), j);
        assert(s.drop_last().take(j + 1) =~= s.take(j + 1));
    }
}

/// A histogram's counts: per finite bucket, and of all observations.
pub struct HistogramView {
    pub buckets: Seq<u64>,
    pub count: u64,
}

impl HistogramView {
    /// No bucket holds more than was observed in all.
    pub open spec fn wf(self) -> bool {
        seq_sum(self.buckets) <= self.count
    }

    /// No observation yet, over `n` finite buckets.
    pub open spec fn zeroed(n: nat) -> HistogramView {
        HistogramView { buckets: Seq::new(n, |i: int| 0u64), count: 0 }
    }

    /// One observation falling in `bucket` (past the last finite bucket: in
    /// none of them). Once the count is at its largest, observations are dropped.
    pub open spec fn observe(self, bucket: int) -> HistogramView {
        if self.count == u64::MAX {
            self
        } else if 0 <= bucket < self.buckets.len() {
            HistogramView {
                buckets: self.buckets.update(bucket, (self.buckets[bucket] + 1) as u64),
                count: (self.count + 1) as u64,
            }
        } else {
            HistogramView { buckets: self.buckets, count: (self.count + 1) as u64 }
        }
    }

    pub proof fn lemma_observe_wf(self, bucket: int)
        requires
            self.wf(),
        ensures
            self.observe(bucket).wf(),
    {
        if self.count < u64::MAX && 0 <= bucket < self.buckets.len() {
            lemma_prefix_sum(self.buckets, bucket);
            lemma_prefix_sum_le_whole(self.buckets, bucket);
            lemma_sum_bump(self.buckets, bucket, (self.buckets[bucket] + 1) as u64);
        }
    }
}

/// Each count is at most the sum.
pub proof fn lemma_prefix_sum_le_whole(s: Seq<u64>, j: int)
    requires
        0 <= j < s.len(),
    ensures
        s[j] <= seq_sum(s),
{
    lemma_prefix_sum(s, j);
}

/// Counts of a histogram: per finite bucket (not cumulated), and of all
/// observations. The bucket bounds are kept by the host.
pub struct HistogramState {
    pub buckets: Vec<u64>,
    pub count: u64,
}

impl View for HistogramState {
    type V = HistogramView;

    open spec fn view(&self) -> HistogramView {
        HistogramView { buckets: self.buckets@, count: self.count }
    }
}

impl HistogramState {
    /// No observation yet, over `bucket_count` finite buckets.
    pub fn new(bucket_count: usize) -> (r: HistogramState)
        ensures
            r@ == HistogramView::zeroed(bucket_count as nat),
            r@.wf(),
    {
        let mut buckets: Vec<u64> = Vec::new();
        let mut i: usize = 0;
        while i < bucket_count
            invariant
                i <= bucket_count,
                buckets@ == Seq::new(i as nat, |k: int| 0u64),
            decreases bucket_count - i,
        {
            buckets.push(0);
            i = i + 1;
            assert(buckets@ =~= Seq::new(i as nat, |k: int| 0u64));
        }
        proof {
            lemma_sum_zeros(bucket_count as nat);
        }
        HistogramState { buckets, count: 0 }
    }

    /// Records one observation falling in `bucket`.
    pub fn observe(&mut self, bucket: usize)
        requires
            old(self)@.wf(),
        ensures
            final(self)@ == old(self)@.observe(bucket as int),
            final(self)@.wf(),
    {
        proof {
            self@.lemma_observe_wf(bucket as int);
        }
        if self.count < u64::MAX {
            if bucket < self.buckets.len() {
                proof {
                    lemma_prefix_sum_le_whole(self.buckets@, bucket as int);
                }
                let b = self.buckets[bucket];
                self.buckets.set(bucket, b + 1);
            }
            self.count = self.count + 1;
        }
    }
}

} // verus!
