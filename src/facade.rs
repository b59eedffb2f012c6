use vstd::prelude::*;

use crate::histogram::HistogramState;
use crate::store::{lemma_register_wf, lemma_update_wf, GaugeOp, MetricStore, StoreView};

verus! {

/// Registers a float gauge with its help text, unless the name is taken,
/// malformed, or the help text is empty; then the store is left as it was.
pub fn register_gauge(store: &mut MetricStore, name: &str, help: &str)
    requires
        old(store).wf(),
    ensures
        final(store).wf(),
        final(store)@ == old(store)@.register_gauge(name@, help@),
{
    proof {
        lemma_register_wf(store@, name@, help@, 0);
    }
    let ghost s0: StoreView = store@;
    let may = store.can_register(name, help);
    let _ = store.gauges.get_or_create(name, help, (), may);
    assert(store@.gauges == s0.register_gauge(name@, help@).gauges);
}

/// Registers an integer gauge at zero with its help text, unless the name
/// is taken, malformed, or the help text is empty.
pub fn register_int_gauge(store: &mut MetricStore, name: &str, help: &str)
    requires
        old(store).wf(),
    ensures
        final(store).wf(),
        final(store)@ == old(store)@.register_int_gauge(name@, help@),
{
    proof {
        lemma_register_wf(store@, name@, help@, 0);
    }
    let ghost s0: StoreView = store@;
    let may = store.can_register(name, help);
    let _ = store.int_gauges.get_or_create(name, help, 0i64, may);
    assert(store@.int_gauges == s0.register_int_gauge(name@, help@).int_gauges);
}

/// Registers a counter at zero with its help text, unless the name is
/// taken, malformed, or the help text is empty.
pub fn register_int_counter(store: &mut MetricStore, name: &str, help: &str)
    requires
        old(store).wf(),
    ensures
        final(store).wf(),
        final(store)@ == old(store)@.register_int_counter(name@, help@),
{
    proof {
        lemma_register_wf(store@, name@, help@, 0);
    }
    let ghost s0: StoreView = store@;
    let may = store.can_register(name, help);
    let _ = store.counters.get_or_create(name, help, 0u64, may);
    assert(store@.counters == s0.register_int_counter(name@, help@).counters);
}

/// Registers a histogram over `bucket_count` finite buckets, with no
/// observation, unless the name is taken, malformed, or the help text is empty.
pub fn register_histogram(store: &mut MetricStore, name: &str, help: &str, bucket_count: usize)
    requires
        old(store).wf(),
    ensures
        final(store).wf(),
        final(store)@ == old(store)@.register_histogram(name@, help@, bucket_count as nat),
{
    proof {
        lemma_register_wf(store@, name@, help@, bucket_count as nat);
    }
    let ghost s0: StoreView = store@;
    let may = store.can_register(name, help);
    let _ = store.histograms.get_or_create(name, help, HistogramState::new(bucket_count), may);
    assert(store@.histograms == s0.register_histogram(name@, help@, bucket_count as nat).histograms);
}

/// Resolves the float gauge `name`, creating it on first use with the name
/// as help text; returns its position, or `None` when it cannot be created.
pub fn run_for_gauge(store: &mut MetricStore, name: &str) -> (r: Option<usize>)
    requires
        old(store).wf(),
    ensures
        final(store).wf(),
        final(store)@ == old(store)@.with_gauge(name@),
        r is Some <==> final(store)@.gauges.contains_key(name@),
        r matches Some(i) ==> final(store).gauges.has_at(name@, i as int),
{
    proof {
        lemma_register_wf(store@, name@, name@, 0);
    }
    let ghost s0: StoreView = store@;
    let r = match store.gauges.find(name) {
        Some(i) => Some(i),
        None => {
            let may = store.can_register(name, name);
            store.gauges.get_or_create(name, name, (), may)
        },
    };
    assert(store@.gauges == s0.with_gauge(name@).gauges);
    r
}

/// Resolves the integer gauge `name`, creating it at zero on first use with
/// the name as help text; returns its position, or `None`.
pub fn run_for_int_gauge(store: &mut MetricStore, name: &str) -> (r: Option<usize>)
    requires
        old(store).wf(),
    ensures
        final(store).wf(),
        final(store)@ == old(store)@.with_int_gauge(name@),
        r is Some <==> final(store)@.int_gauges.contains_key(name@),
        r matches Some(i) ==> final(store).int_gauges.has_at(name@, i as int),
{
    proof {
        lemma_register_wf(store@, name@, name@, 0);
    }
    let ghost s0: StoreView = store@;
    let r = match store.int_gauges.find(name) {
        Some(i) => Some(i),
        None => {
            let may = store.can_register(name, name);
            store.int_gauges.get_or_create(name, name, 0i64, may)
        },
    };
    assert(store@.int_gauges == s0.with_int_gauge(name@).int_gauges);
    r
}

/// Resolves the counter `name`, creating it at zero on first use with the
/// name as help text; returns its position, or `None`.
pub fn run_for_int_counter(store: &mut MetricStore, name: &str) -> (r: Option<usize>)
    requires
        old(store).wf(),
    ensures
        final(store).wf(),
        final(store)@ == old(store)@.with_int_counter(name@),
        r is Some <==> final(store)@.counters.contains_key(name@),
        r matches Some(i) ==> final(store).counters.has_at(name@, i as int),
{
    proof {
        lemma_register_wf(store@, name@, name@, 0);
    }
    let ghost s0: StoreView = store@;
    let r = match store.counters.find(name) {
        Some(i) => Some(i),
        None => {
            let may = store.can_register(name, name);
            store.counters.get_or_create(name, name, 0u64, may)
        },
    };
    assert(store@.counters == s0.with_int_counter(name@).counters);
    r
}

/// Resolves the histogram `name`, creating it on first use over
/// `bucket_count` finite buckets with the name as help text; returns its
/// position, or `None`.
pub fn run_for_histogram(store: &mut MetricStore, name: &str, bucket_count: usize) -> (r: Option<usize>)
    requires
        old(store).wf(),
    ensures
        final(store).wf(),
        final(store)@ == old(store)@.with_histogram(name@, bucket_count as nat),
        r is Some <==> final(store)@.histograms.contains_key(name@),
        r matches Some(i) ==> final(store).histograms.has_at(name@, i as int),
{
    proof {
        lemma_register_wf(store@, name@, name@, bucket_count as nat);
    }
    let ghost s0: StoreView = store@;
    let r = match store.histograms.find(name) {
        Some(i) => Some(i),
        None => {
            let may = store.can_register(name, name);
            store.histograms.get_or_create(name, name, HistogramState::new(bucket_count), may)
        },
    };
    assert(store@.histograms == s0.with_histogram(name@, bucket_count as nat).histograms);
    r
}

/// Resolves the integer gauge `name` and applies `op` to it; a name that
/// cannot be registered leaves the store unchanged.
pub fn int_gauge_apply(store: &mut MetricStore, name: &str, op: GaugeOp)
    requires
        old(store).wf(),
    ensures
        final(store).wf(),
        final(store)@ == old(store)@.int_gauge_after(name@, op),
{
    proof {
        lemma_update_wf(store@, name@, op, 0, 0);
    }
    let ghost s0: StoreView = store@;
    if let Some(i) = run_for_int_gauge(store, name) {
        proof {
            store.int_gauges.lemma_index_unique(name@, i as int);
        }
        let v = store.int_gauges.entries[i].value;
        let nv = match op {
            GaugeOp::Inc => v.wrapping_add(1),
            GaugeOp::Dec => v.wrapping_sub(1),
            GaugeOp::Add(n) => v.wrapping_add(n),
            GaugeOp::Sub(n) => v.wrapping_sub(n),
            GaugeOp::Assign(n) => n,
        };
        let _ = store.int_gauges.set_value(i, nv);
    }
    assert(store@.int_gauges == s0.int_gauge_after(name@, op).int_gauges);
}

/// Adds one to the integer gauge `name`.
pub fn int_gauge_inc(store: &mut MetricStore, name: &str)
    requires
        old(store).wf(),
    ensures
        final(store).wf(),
        final(store)@ == old(store)@.int_gauge_after(name@, GaugeOp::Inc),
{
    int_gauge_apply(store, name, GaugeOp::Inc);
}

/// Takes one from the integer gauge `name`.
pub fn int_gauge_dec(store: &mut MetricStore, name: &str)
    requires
        old(store).wf(),
    ensures
        final(store).wf(),
        final(store)@ == old(store)@.int_gauge_after(name@, GaugeOp::Dec),
{
    int_gauge_apply(store, name, GaugeOp::Dec);
}

/// Adds `n` to the integer gauge `name`.
pub fn int_gauge_add(store: &mut MetricStore, name: &str, n: i64)
    requires
        old(store).wf(),
    ensures
        final(store).wf(),
        final(store)@ == old(store)@.int_gauge_after(name@, GaugeOp::Add(n)),
{
    int_gauge_apply(store, name, GaugeOp::Add(n));
}

/// Takes `n` from the integer gauge `name`.
pub fn int_gauge_sub(store: &mut MetricStore, name: &str, n: i64)
    requires
        old(store).wf(),
    ensures
        final(store).wf(),
        final(store)@ == old(store)@.int_gauge_after(name@, GaugeOp::Sub(n)),
{
    int_gauge_apply(store, name, GaugeOp::Sub(n));
}

/// Sets the integer gauge `name` to `n`.
pub fn int_gauge_set(store: &mut MetricStore, name: &str, n: i64)
    requires
        old(store).wf(),
    ensures
        final(store).wf(),
        final(store)@ == old(store)@.int_gauge_after(name@, GaugeOp::Assign(n)),
{
    int_gauge_apply(store, name, GaugeOp::Assign(n));
}

/// Adds one to the counter `name`, saturating at the largest `u64`.
pub fn int_counter_inc(store: &mut MetricStore, name: &str)
    requires
        old(store).wf(),
    ensures
        final(store).wf(),
        final(store)@ == old(store)@.counter_after_inc(name@),
{
    proof {
        lemma_update_wf(store@, name@, GaugeOp::Inc, 0, 0);
    }
    let ghost s0: StoreView = store@;
    if let Some(i) = run_for_int_counter(store, name) {
        proof {
            store.counters.lemma_index_unique(name@, i as int);
        }
        let v = store.counters.entries[i].value;
        let _ = store.counters.set_value(i, v.saturating_add(1));
    }
    assert(store@.counters == s0.counter_after_inc(name@).counters);
}

/// Records one observation, falling in `bucket`, on the histogram `name`
/// (created on first use over `bucket_count` finite buckets), and returns
/// its position, where the host adds the observed value to its sum; `None`
/// when it cannot be created.
pub fn histogram_observe(store: &mut MetricStore, name: &str, bucket_count: usize, bucket: usize) -> (r: Option<usize>)
    requires
        old(store).wf(),
    ensures
        final(store).wf(),
        final(store)@ == old(store)@.histogram_after_observe(name@, bucket_count as nat, bucket as int),
        r is Some <==> final(store)@.histograms.contains_key(name@),
        r matches Some(i) ==> final(store).histograms.has_at(name@, i as int),
{
    proof {
        lemma_update_wf(store@, name@, GaugeOp::Inc, bucket_count as nat, bucket as int);
    }
    let ghost s0: StoreView = store@;
    let r = run_for_histogram(store, name, bucket_count);
    if let Some(i) = r {
        proof {
            store.histograms.lemma_index_unique(name@, i as int);
        }
        let ghost s1: StoreView = store@;
        let mut st = store.histograms.set_value(i, HistogramState { buckets: Vec::new(), count: 0 });
        st.observe(bucket);
        let _ = store.histograms.set_value(i, st);
        assert(store@.histograms =~= s0.histogram_after_observe(name@, bucket_count as nat, bucket as int).histograms);
    }
    assert(store@.histograms == s0.histogram_after_observe(name@, bucket_count as nat, bucket as int).histograms);
    r
}

/// Resolves the float gauge `name` and returns its position, where the host
/// adds one to its value; `None` when it cannot be created.
pub fn gauge_inc(store: &mut MetricStore, name: &str) -> (r: Option<usize>)
    requires
        old(store).wf(),
    ensures
        final(store).wf(),
        final(store)@ == old(store)@.with_gauge(name@),
        r is Some <==> final(store)@.gauges.contains_key(name@),
        r matches Some(i) ==> final(store).gauges.has_at(name@, i as int),
{
    run_for_gauge(store, name)
}

/// Resolves the float gauge `name` and returns its position, where the host
/// takes one from its value; `None` when it cannot be created.
pub fn gauge_dec(store: &mut MetricStore, name: &str) -> (r: Option<usize>)
    requires
        old(store).wf(),
    ensures
        final(store).wf(),
        final(store)@ == old(store)@.with_gauge(name@),
        r is Some <==> final(store)@.gauges.contains_key(name@),
        r matches Some(i) ==> final(store).gauges.has_at(name@, i as int),
{
    run_for_gauge(store, name)
}

} // verus!
