use vstd::prelude::*;

use crate::store::{GaugeOp, StoreView};

verus! {

/// A facade call, by kind; its name and help text are given beside it.
#[derive(Clone, Copy, PartialEq, Eq, Structural, Debug)]
pub enum FacadeCall {
    RegisterGauge,
    RegisterIntGauge,
    RegisterIntCounter,
    /// With its number of finite buckets.
    RegisterHistogram(usize),
    IntGauge(GaugeOp),
    GaugeInc,
    GaugeDec,
    CounterInc,
    /// With the number of finite buckets to create it with, and the bucket observed.
    HistogramObserve(usize, usize),
}

/// The effect of one facade call on a store.
pub open spec fn apply_call(v: StoreView, call: FacadeCall, name: Seq<char>, help: Seq<char>) -> StoreView {
    match call {
        FacadeCall::RegisterGauge => v.register_gauge(name, help),
        FacadeCall::RegisterIntGauge => v.register_int_gauge(name, help),
        FacadeCall::RegisterIntCounter => v.register_int_counter(name, help),
        FacadeCall::RegisterHistogram(n) => v.register_histogram(name, help, n as nat),
        FacadeCall::IntGauge(op) => v.int_gauge_after(name, op),
        FacadeCall::GaugeInc => v.with_gauge(name),
        FacadeCall::GaugeDec => v.with_gauge(name),
        FacadeCall::CounterInc => v.counter_after_inc(name),
        FacadeCall::HistogramObserve(n, b) => v.histogram_after_observe(name, n as nat, b as int),
    }
}

/// The effect of a sequence of facade calls, first to last.
pub open spec fn apply_calls(v: StoreView, calls: Seq<(FacadeCall, Seq<char>, Seq<char>)>) -> StoreView
    decreases calls.len(),
{
    if calls.len() == 0 {
        v
    } else {
        let c = calls.last();
        apply_call(apply_calls(v, calls.drop_last()), c.0, c.1, c.2)
    }
}

/// `op` applied `k` times in a row to the integer gauge `name`.
pub open spec fn int_gauge_repeat(v: StoreView, name: Seq<char>, op: GaugeOp, k: nat) -> StoreView
    decreases k,
{
    if k == 0 {
        v
    } else {
        int_gauge_repeat(v, name, op, (k - 1) as nat).int_gauge_after(name, op)
    }
}

/// `k` observations in a row on the histogram `name`, each in `bucket`.
pub open spec fn histogram_repeat(v: StoreView, name: Seq<char>, bucket_count: nat, bucket: int, k: nat) -> StoreView
    decreases k,
{
    if k == 0 {
        v
    } else {
        histogram_repeat(v, name, bucket_count, bucket, (k - 1) as nat).histogram_after_observe(name, bucket_count, bucket)
    }
}

/// Resolving an instrument a second time creates nothing: whatever number
/// of callers resolve `(kind, name)`, one instrument stands for it, and the
/// store keeps each name within one kind.
pub proof fn lemma_resolve_once(v: StoreView, name: Seq<char>, bucket_count: nat)
    requires
        v.wf(),
    ensures
        v.with_gauge(name).with_gauge(name) == v.with_gauge(name),
        v.with_int_gauge(name).with_int_gauge(name) == v.with_int_gauge(name),
        v.with_int_counter(name).with_int_counter(name) == v.with_int_counter(name),
        v.with_histogram(name, bucket_count).with_histogram(name, bucket_count) == v.with_histogram(name, bucket_count),
        v.with_gauge(name).kind_count(name) <= 1,
        v.with_int_gauge(name).kind_count(name) <= 1,
        v.with_int_counter(name).kind_count(name) <= 1,
        v.with_histogram(name, bucket_count).kind_count(name) <= 1,
{
    crate::store::lemma_register_wf(v, name, name, bucket_count);
}

/// The four kinds of instrument.
#[derive(Clone, Copy, PartialEq, Eq, Structural, Debug)]
pub enum MetricKind {
    Gauge,
    IntGauge,
    Counter,
    Histogram,
}

/// Resolution on first use of the instrument `(kind, name)`.
pub open spec fn resolve(v: StoreView, kind: MetricKind, name: Seq<char>, bucket_count: nat) -> StoreView {
    match kind {
        MetricKind::Gauge => v.with_gauge(name),
        MetricKind::IntGauge => v.with_int_gauge(name),
        MetricKind::Counter => v.with_int_counter(name),
        MetricKind::Histogram => v.with_histogram(name, bucket_count),
    }
}

/// Whether the family of `kind` holds `name`.
pub open spec fn holds(v: StoreView, kind: MetricKind, name: Seq<char>) -> bool {
    match kind {
        MetricKind::Gauge => v.gauges.contains_key(name),
        MetricKind::IntGauge => v.int_gauges.contains_key(name),
        MetricKind::Counter => v.counters.contains_key(name),
        MetricKind::Histogram => v.histograms.contains_key(name),
    }
}

/// `n` resolutions in a row of `(kind, name)`, as made by `n` callers.
pub open spec fn resolve_times(v: StoreView, kind: MetricKind, name: Seq<char>, bucket_count: nat, n: nat) -> StoreView
    decreases n,
{
    if n == 0 {
        v
    } else {
        resolve(resolve_times(v, kind, name, bucket_count, (n - 1) as nat), kind, name, bucket_count)
    }
}

/// However many callers resolve `(kind, name)`, in whatever order, the
/// outcome is that of the first resolution alone: one instrument is created
/// for it (when the name is free and well formed) or none, every later
/// caller finds that same instrument unchanged, and the name stays within
/// one kind.
pub proof fn lemma_resolve_many(v: StoreView, kind: MetricKind, name: Seq<char>, bucket_count: nat, n: nat)
    requires
        v.wf(),
        n >= 1,
    ensures
        resolve_times(v, kind, name, bucket_count, n) == resolve(v, kind, name, bucket_count),
        holds(resolve_times(v, kind, name, bucket_count, n), kind, name)
            <==> (holds(v, kind, name) || v.admissible(name, name)),
        resolve_times(v, kind, name, bucket_count, n).kind_count(name) <= 1,
        resolve_times(v, kind, name, bucket_count, n).wf(),
    decreases n,
{
    lemma_resolve_once(v, name, bucket_count);
    crate::store::lemma_register_wf(v, name, name, bucket_count);
    let r = resolve(v, kind, name, bucket_count);
    assert(resolve(r, kind, name, bucket_count) == r);
    if n > 1 {
        lemma_resolve_many(v, kind, name, bucket_count, (n - 1) as nat);
        assert(resolve_times(v, kind, name, bucket_count, n) == resolve(r, kind, name, bucket_count));
    } else {
        assert(resolve_times(v, kind, name, bucket_count, 0) == v);
        assert(resolve_times(v, kind, name, bucket_count, n) == r);
    }
}

/// Observations on `name`, falling in the given buckets, first to last.
pub open spec fn histogram_observe_all(v: StoreView, name: Seq<char>, bucket_count: nat, buckets: Seq<int>) -> StoreView
    decreases buckets.len(),
{
    if buckets.len() == 0 {
        v
    } else {
        histogram_observe_all(v, name, bucket_count, buckets.drop_last()).histogram_after_observe(
            name,
            bucket_count,
            buckets.last(),
        )
    }
}

/// The count of observations a histogram has, zero while it does not exist.
pub open spec fn observed(v: StoreView, name: Seq<char>) -> nat {
    if v.histograms.contains_key(name) {
        v.histograms[name].1.count as nat
    } else {
        0
    }
}

/// Any number `k >= 1` of observations on a histogram that exists or can
/// be created, whatever values they record, leave it existing with its
/// count of observations raised by exactly `k`, while that count stays
/// within `u64`.
pub proof fn lemma_observation_count(v: StoreView, name: Seq<char>, bucket_count: nat, buckets: Seq<int>)
    requires
        v.histograms.contains_key(name) || v.admissible(name, name),
        observed(v, name) + buckets.len() <= u64::MAX,
    ensures
        buckets.len() > 0 ==> histogram_observe_all(v, name, bucket_count, buckets).histograms.contains_key(name),
        buckets.len() > 0 ==> observed(histogram_observe_all(v, name, bucket_count, buckets), name)
            == observed(v, name) + buckets.len(),
    decreases buckets.len(),
{
    if buckets.len() > 1 {
        lemma_observation_count(v, name, bucket_count, buckets.drop_last());
        let p = histogram_observe_all(v, name, bucket_count, buckets.drop_last());
        assert(p.with_histogram(name, bucket_count) == p);
        assert(p.histograms[name].1.count < u64::MAX);
    } else if buckets.len() == 1 {
        assert(histogram_observe_all(v, name, bucket_count, buckets.drop_last()) == v);
        let w = v.with_histogram(name, bucket_count);
        assert(w.histograms.contains_key(name));
        assert(w.histograms[name].1.count as nat == observed(v, name));
    }
}

/// Increments add up with none lost: `k` increments of an integer gauge
/// raise it by exactly `k` (as `K` threads making `M` increments each, in
/// any interleaving, raise it by `K * M`), while no overflow is reached.
pub proof fn lemma_increments_add_up(v: StoreView, name: Seq<char>, k: nat)
    requires
        v.wf(),
        v.int_gauges.contains_key(name),
        v.int_gauges[name].1 + k <= i64::MAX,
    ensures
        int_gauge_repeat(v, name, GaugeOp::Inc, k).int_gauges.contains_key(name),
        int_gauge_repeat(v, name, GaugeOp::Inc, k).int_gauges[name].1 == v.int_gauges[name].1 + k,
    decreases k,
{
    if k > 0 {
        lemma_increments_add_up(v, name, (k - 1) as nat);
    }
}

/// Observations add up: `k` observations on a histogram raise its count of
/// observations by exactly `k`, and the count of the finite bucket they
/// fall in by as much, while the count stays within `u64`.
pub proof fn lemma_observations_add_up(v: StoreView, name: Seq<char>, bucket_count: nat, bucket: int, k: nat)
    requires
        v.wf(),
        v.histograms.contains_key(name),
        v.histograms[name].1.count + k <= u64::MAX,
    ensures
        histogram_repeat(v, name, bucket_count, bucket, k).histograms.contains_key(name),
        histogram_repeat(v, name, bucket_count, bucket, k).histograms[name].1.count == v.histograms[name].1.count + k,
        histogram_repeat(v, name, bucket_count, bucket, k).histograms[name].1.buckets.len()
            == v.histograms[name].1.buckets.len(),
        0 <= bucket < v.histograms[name].1.buckets.len() ==>
            histogram_repeat(v, name, bucket_count, bucket, k).histograms[name].1.buckets[bucket]
                == v.histograms[name].1.buckets[bucket] + k,
    decreases k,
{
    if k > 0 {
        lemma_observations_add_up(v, name, bucket_count, bucket, (k - 1) as nat);
        let p = histogram_repeat(v, name, bucket_count, bucket, (k - 1) as nat);
        lemma_repeat_wf(v, name, bucket_count, bucket, (k - 1) as nat);
        let h = p.histograms[name].1;
        if 0 <= bucket < h.buckets.len() {
            crate::histogram::lemma_prefix_sum_le_whole(h.buckets, bucket);
        }
    }
}

/// Repeated observations keep the store well formed.
pub proof fn lemma_repeat_wf(v: StoreView, name: Seq<char>, bucket_count: nat, bucket: int, k: nat)
    requires
        v.wf(),
    ensures
        histogram_repeat(v, name, bucket_count, bucket, k).wf(),
    decreases k,
{
    if k > 0 {
        lemma_repeat_wf(v, name, bucket_count, bucket, (k - 1) as nat);
        crate::store::lemma_update_wf(
            histogram_repeat(v, name, bucket_count, bucket, (k - 1) as nat),
            name,
            GaugeOp::Inc,
            bucket_count,
            bucket,
        );
    }
}

/// One facade call keeps every counter, and lowers none.
pub proof fn lemma_call_keeps_counters(v: StoreView, call: FacadeCall, name: Seq<char>, help: Seq<char>, n: Seq<char>)
    requires
        v.counters.contains_key(n),
    ensures
        apply_call(v, call, name, help).counters.contains_key(n),
        apply_call(v, call, name, help).counters[n].1 >= v.counters[n].1,
{
}

/// A counter never decreases: after any sequence of facade calls, every
/// counter that existed before still exists, with a value at least as large.
pub proof fn lemma_counters_never_decrease(v: StoreView, calls: Seq<(FacadeCall, Seq<char>, Seq<char>)>, n: Seq<char>)
    requires
        v.counters.contains_key(n),
    ensures
        apply_calls(v, calls).counters.contains_key(n),
        apply_calls(v, calls).counters[n].1 >= v.counters[n].1,
    decreases calls.len(),
{
    if calls.len() > 0 {
        lemma_counters_never_decrease(v, calls.drop_last(), n);
        let c = calls.last();
        lemma_call_keeps_counters(apply_calls(v, calls.drop_last()), c.0, c.1, c.2, n);
    }
}

} // verus!
