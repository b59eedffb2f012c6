use vstd::prelude::*;

use crate::family::Family;
use crate::histogram::{HistogramState, HistogramView};
use crate::names::{is_valid_metric_name, valid_metric_name};

verus! {

/// A change to an integer gauge.
#[derive(Clone, Copy, PartialEq, Eq, Structural, Debug)]
pub enum GaugeOp {
    Inc,
    Dec,
    Add(i64),
    Sub(i64),
    Assign(i64),
}

/// New value of an integer gauge after `op`; arithmetic wraps as on an atomic integer.
pub open spec fn gauge_step(op: GaugeOp, v: i64) -> i64 {
    match op {
        GaugeOp::Inc => v.wrapping_add(1),
        GaugeOp::Dec => v.wrapping_sub(1),
        GaugeOp::Add(n) => v.wrapping_add(n),
        GaugeOp::Sub(n) => v.wrapping_sub(n),
        GaugeOp::Assign(n) => n,
    }
}

/// The contents of one family: name to (help, value).
pub type Entries<V> = Map<Seq<char>, (Seq<char>, V)>;

/// The contents of every family of a store.
pub struct StoreView {
    pub gauges: Entries<()>,
    pub int_gauges: Entries<i64>,
    pub counters: Entries<u64>,
    pub histograms: Entries<HistogramView>,
}

/// `fam` with `name` present, created from `help` and `init` when absent and `may_create`.
pub open spec fn ensure_entry<V>(fam: Entries<V>, name: Seq<char>, help: Seq<char>, init: V, may_create: bool) -> Entries<V> {
    if !fam.contains_key(name) && may_create {
        fam.insert(name, (help, init))
    } else {
        fam
    }
}

/// `fam` with the value under `name`, if there is one, replaced by `v`.
pub open spec fn update_entry<V>(fam: Entries<V>, name: Seq<char>, v: V) -> Entries<V> {
    if fam.contains_key(name) {
        fam.insert(name, (fam[name].0, v))
    } else {
        fam
    }
}

impl StoreView {
    /// Whether some family already holds `name`.
    pub open spec fn taken(self, name: Seq<char>) -> bool {
        self.gauges.contains_key(name) || self.int_gauges.contains_key(name)
            || self.counters.contains_key(name) || self.histograms.contains_key(name)
    }

    /// Whether a new instrument called `name` with this help text can be created.
    pub open spec fn admissible(self, name: Seq<char>, help: Seq<char>) -> bool {
        valid_metric_name(name) && help.len() > 0 && !self.taken(name)
    }

    /// How many families hold `name`.
    pub open spec fn kind_count(self, name: Seq<char>) -> int {
        (if self.gauges.contains_key(name) { 1int } else { 0int })
            + (if self.int_gauges.contains_key(name) { 1int } else { 0int })
            + (if self.counters.contains_key(name) { 1int } else { 0int })
            + (if self.histograms.contains_key(name) { 1int } else { 0int })
    }

    /// A name belongs to one kind at most, and no histogram has more in its
    /// buckets than it has observed.
    pub open spec fn wf(self) -> bool {
        &&& forall|n: Seq<char>| #[trigger] self.kind_count(n) <= 1
        &&& forall|n: Seq<char>| #[trigger] self.histograms.contains_key(n) ==> self.histograms[n].1.wf()
    }

    /// Explicit registration of a float gauge.
    pub open spec fn register_gauge(self, name: Seq<char>, help: Seq<char>) -> StoreView {
        StoreView {
            gauges: ensure_entry(self.gauges, name, help, (), self.admissible(name, help)),
            ..self
        }
    }

    /// Explicit registration of an integer gauge, starting at zero.
    pub open spec fn register_int_gauge(self, name: Seq<char>, help: Seq<char>) -> StoreView {
        StoreView {
            int_gauges: ensure_entry(self.int_gauges, name, help, 0i64, self.admissible(name, help)),
            ..self
        }
    }

    /// Explicit registration of a counter, starting at zero.
    pub open spec fn register_int_counter(self, name: Seq<char>, help: Seq<char>) -> StoreView {
        StoreView {
            counters: ensure_entry(self.counters, name, help, 0u64, self.admissible(name, help)),
            ..self
        }
    }

    /// Explicit registration of a histogram over `bucket_count` finite buckets, with no observation.
    pub open spec fn register_histogram(self, name: Seq<char>, help: Seq<char>, bucket_count: nat) -> StoreView {
        StoreView {
            histograms: ensure_entry(
                self.histograms,
                name,
                help,
                HistogramView::zeroed(bucket_count),
                self.admissible(name, help),
            ),
            ..self
        }
    }

    /// Resolution on first use: the name doubles as help text.
    pub open spec fn with_gauge(self, name: Seq<char>) -> StoreView {
        self.register_gauge(name, name)
    }

    pub open spec fn with_int_gauge(self, name: Seq<char>) -> StoreView {
        self.register_int_gauge(name, name)
    }

    pub open spec fn with_int_counter(self, name: Seq<char>) -> StoreView {
        self.register_int_counter(name, name)
    }

    pub open spec fn with_histogram(self, name: Seq<char>, bucket_count: nat) -> StoreView {
        self.register_histogram(name, name, bucket_count)
    }

    /// Resolve the integer gauge `name`, then apply `op` to it if it exists.
    pub open spec fn int_gauge_after(self, name: Seq<char>, op: GaugeOp) -> StoreView {
        let w = self.with_int_gauge(name);
        StoreView {
            int_gauges: update_entry(w.int_gauges, name, gauge_step(op, w.int_gauges[name].1)),
            ..w
        }
    }

    /// Resolve the counter `name`, then add one to it, saturating.
    pub open spec fn counter_after_inc(self, name: Seq<char>) -> StoreView {
        let w = self.with_int_counter(name);
        StoreView {
            counters: update_entry(w.counters, name, w.counters[name].1.saturating_add(1)),
            ..w
        }
    }

    /// Resolve the histogram `name` (created over `bucket_count` finite
    /// buckets), then record one observation falling in `bucket`.
    pub open spec fn histogram_after_observe(self, name: Seq<char>, bucket_count: nat, bucket: int) -> StoreView {
        let w = self.with_histogram(name, bucket_count);
        StoreView {
            histograms: update_entry(w.histograms, name, w.histograms[name].1.observe(bucket)),
            ..w
        }
    }
}

/// Registering keeps every name within one kind, and histograms well formed.
pub proof fn lemma_register_wf(v: StoreView, name: Seq<char>, help: Seq<char>, bucket_count: nat)
    requires
        v.wf(),
    ensures
        v.register_gauge(name, help).wf(),
        v.register_int_gauge(name, help).wf(),
        v.register_int_counter(name, help).wf(),
        v.register_histogram(name, help, bucket_count).wf(),
{
    crate::histogram::lemma_sum_zeros(bucket_count);
    assert forall|n: Seq<char>| #[trigger] v.register_gauge(name, help).kind_count(n) <= 1 by {
        assert(v.kind_count(n) <= 1);
    }
    assert forall|n: Seq<char>| #[trigger] v.register_int_gauge(name, help).kind_count(n) <= 1 by {
        assert(v.kind_count(n) <= 1);
    }
    assert forall|n: Seq<char>| #[trigger] v.register_int_counter(name, help).kind_count(n) <= 1 by {
        assert(v.kind_count(n) <= 1);
    }
    let h = v.register_histogram(name, help, bucket_count);
    assert forall|n: Seq<char>| #[trigger] h.kind_count(n) <= 1 by {
        assert(v.kind_count(n) <= 1);
    }
    assert forall|n: Seq<char>| #[trigger] h.histograms.contains_key(n) implies h.histograms[n].1.wf() by {
        if n != name {
            assert(v.histograms.contains_key(n));
        }
    }
}

/// Changing values keeps every name within one kind, and histograms well formed.
pub proof fn lemma_update_wf(v: StoreView, name: Seq<char>, op: GaugeOp, bucket_count: nat, bucket: int)
    requires
        v.wf(),
    ensures
        v.int_gauge_after(name, op).wf(),
        v.counter_after_inc(name).wf(),
        v.histogram_after_observe(name, bucket_count, bucket).wf(),
{
    lemma_register_wf(v, name, name, bucket_count);
    let a = v.with_int_gauge(name);
    let b = v.with_int_counter(name);
    let c = v.with_histogram(name, bucket_count);
    let h = v.histogram_after_observe(name, bucket_count, bucket);
    assert forall|n: Seq<char>| #[trigger] v.int_gauge_after(name, op).kind_count(n) <= 1 by {
        assert(a.kind_count(n) <= 1);
    }
    assert forall|n: Seq<char>| #[trigger] v.counter_after_inc(name).kind_count(n) <= 1 by {
        assert(b.kind_count(n) <= 1);
    }
    assert forall|n: Seq<char>| #[trigger] h.kind_count(n) <= 1 by {
        assert(c.kind_count(n) <= 1);
    }
    if c.histograms.contains_key(name) {
        c.histograms[name].1.lemma_observe_wf(bucket);
    }
    assert forall|n: Seq<char>| #[trigger] h.histograms.contains_key(n) implies h.histograms[n].1.wf() by {
        assert(c.histograms.contains_key(n));
    }
}

/// The process's instruments, one family per kind.
///
/// Float gauges and histograms are registered here; their floating-point
/// state (gauge values, observed sums and buckets) is kept by the host in
/// slots that follow the positions of this store's entries.
pub struct MetricStore {
    pub gauges: Family<()>,
    pub int_gauges: Family<i64>,
    /// Integer counters; they only grow.
    pub counters: Family<u64>,
    /// Histograms, with their bucket counts and number of observations.
    pub histograms: Family<HistogramState>,
}

impl View for MetricStore {
    type V = StoreView;

    open spec fn view(&self) -> StoreView {
        StoreView {
            gauges: self.gauges@,
            int_gauges: self.int_gauges@,
            counters: self.counters@,
            histograms: self.histograms@,
        }
    }
}

impl MetricStore {
    pub open spec fn wf(&self) -> bool {
        &&& self.gauges.wf()
        &&& self.int_gauges.wf()
        &&& self.counters.wf()
        &&& self.histograms.wf()
        &&& self@.wf()
    }

    /// A store with no instrument.
    pub fn new() -> (r: Self)
        ensures
            r.wf(),
            r@.gauges.is_empty(),
            r@.int_gauges.is_empty(),
            r@.counters.is_empty(),
            r@.histograms.is_empty(),
    {
        let r = MetricStore {
            gauges: Family::new(),
            int_gauges: Family::new(),
            counters: Family::new(),
            histograms: Family::new(),
        };
        assert forall|n: Seq<char>| #[trigger] r@.kind_count(n) <= 1 by {}
        r
    }

    /// Whether an instrument of any kind is called `name`.
    pub fn is_taken(&self, name: &str) -> (r: bool)
        requires
            self.wf(),
        ensures
            r == self@.taken(name@),
    {
        self.gauges.find(name).is_some() || self.int_gauges.find(name).is_some()
            || self.counters.find(name).is_some() || self.histograms.find(name).is_some()
    }

    /// Whether a new instrument called `name` with help text `help` can be created.
    pub fn can_register(&self, name: &str, help: &str) -> (r: bool)
        requires
            self.wf(),
        ensures
            r == self@.admissible(name@, help@),
    {
        is_valid_metric_name(name) && help.unicode_len() > 0 && !self.is_taken(name)
    }
}

} // verus!
