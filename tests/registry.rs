use grin_metrics::exposition::{push_decimal, push_signed, render};
use grin_metrics::facade::{
    gauge_dec, gauge_inc, histogram_observe, int_counter_inc, int_gauge_add, int_gauge_dec,
    int_gauge_inc, int_gauge_set, int_gauge_sub, register_gauge, register_histogram,
    register_int_counter, register_int_gauge, run_for_histogram, run_for_int_gauge,
};
use grin_metrics::names::is_valid_metric_name;
use grin_metrics::store::MetricStore;

fn int_gauge(store: &MetricStore, name: &str) -> Option<i64> {
    store.int_gauges.find(name).map(|i| store.int_gauges.entries[i].value)
}

fn counter(store: &MetricStore, name: &str) -> Option<u64> {
    store.counters.find(name).map(|i| store.counters.entries[i].value)
}

fn histogram_count(store: &MetricStore, name: &str) -> Option<u64> {
    store.histograms.find(name).map(|i| store.histograms.entries[i].value.count)
}

fn snapshot(store: &MetricStore) -> String {
    let gauges = vec!["0".to_string(); store.gauges.entries.len()];
    let sums = vec!["0".to_string(); store.histograms.entries.len()];
    let bounds: Vec<Vec<String>> = store
        .histograms
        .entries
        .iter()
        .map(|e| (0..e.value.buckets.len()).map(|k| k.to_string()).collect())
        .collect();
    render(store, &gauges, &bounds, &sums)
}

#[test]
fn resolving_twice_creates_one_instrument() {
    let mut store = MetricStore::new();
    let a = run_for_int_gauge(&mut store, "peers");
    let b = run_for_int_gauge(&mut store, "peers");
    assert_eq!(a, Some(0));
    assert_eq!(a, b);
    assert_eq!(store.int_gauges.entries.len(), 1);
    assert_eq!(store.int_gauges.entries[0].help, "peers");
}

#[test]
fn increments_from_many_callers_add_up() {
    let mut store = MetricStore::new();
    int_gauge_set(&mut store, "workers", 0);
    for _ in 0..250 {
        for _caller in 0..4 {
            int_gauge_inc(&mut store, "workers");
        }
    }
    assert_eq!(int_gauge(&store, "workers"), Some(1000));
}

#[test]
fn two_callers_interleaved_count_reqs_once() {
    let mut store = MetricStore::new();
    for _ in 0..1000 {
        int_gauge_inc(&mut store, "reqs");
        int_gauge_inc(&mut store, "reqs");
    }
    assert_eq!(int_gauge(&store, "reqs"), Some(2000));
    let text = snapshot(&store);
    assert!(text.contains("\nreqs 2000\n"));
    assert_eq!(text.matches("# TYPE reqs ").count(), 1);
    assert_eq!(text.matches("# HELP reqs ").count(), 1);
}

#[test]
fn exposition_shows_conns_total() {
    let mut store = MetricStore::new();
    register_int_gauge(&mut store, "conns_total", "Open connections");
    for _ in 0..5 {
        int_gauge_inc(&mut store, "conns_total");
    }
    let text = snapshot(&store);
    assert_eq!(
        text,
        "# HELP conns_total Open connections\n# TYPE conns_total gauge\nconns_total 5\n"
    );
}

#[test]
fn counter_does_not_decrease() {
    let mut store = MetricStore::new();
    register_int_counter(&mut store, "sent", "Slates sent");
    int_counter_inc(&mut store, "sent");
    int_counter_inc(&mut store, "sent");
    int_gauge_dec(&mut store, "sent");
    int_gauge_sub(&mut store, "sent", 5);
    int_gauge_set(&mut store, "sent", -1);
    register_int_counter(&mut store, "sent", "again");
    assert_eq!(counter(&store, "sent"), Some(2));
    assert_eq!(int_gauge(&store, "sent"), None);
    int_counter_inc(&mut store, "sent");
    assert_eq!(counter(&store, "sent"), Some(3));
}

#[test]
fn histogram_counts_observations() {
    let mut store = MetricStore::new();
    assert_eq!(histogram_observe(&mut store, "latency", 2, 0), Some(0));
    assert_eq!(histogram_observe(&mut store, "latency", 2, 1), Some(0));
    assert_eq!(histogram_observe(&mut store, "latency", 2, 2), Some(0));
    assert_eq!(histogram_observe(&mut store, "latency", 2, 0), Some(0));
    assert_eq!(histogram_count(&store, "latency"), Some(4));
    assert_eq!(store.histograms.entries[0].value.buckets, vec![2, 1]);
    let bounds = vec![vec!["0.5".to_string(), "1".to_string()]];
    let text = render(&store, &vec![], &bounds, &vec!["1.7".to_string()]);
    assert_eq!(
        text,
        "# HELP latency latency\n# TYPE latency histogram\n\
         latency_bucket{le=\"0.5\"} 2\nlatency_bucket{le=\"1\"} 3\nlatency_bucket{le=\"+Inf\"} 4\n\
         latency_sum 1.7\nlatency_count 4\n"
    );
}

#[test]
fn histogram_keeps_its_registered_buckets() {
    let mut store = MetricStore::new();
    register_histogram(&mut store, "size", "Slate size", 3);
    histogram_observe(&mut store, "size", 11, 2);
    assert_eq!(store.histograms.entries[0].value.buckets, vec![0, 0, 1]);
    assert_eq!(store.histograms.entries[0].help, "Slate size");
    assert_eq!(run_for_histogram(&mut store, "size", 11), Some(0));
    assert_eq!(store.histograms.entries[0].value.buckets.len(), 3);
}

#[test]
fn histogram_created_on_first_use_has_the_given_buckets() {
    let mut store = MetricStore::new();
    histogram_observe(&mut store, "wait", 11, 11);
    assert_eq!(store.histograms.entries[0].value.buckets, vec![0; 11]);
    assert_eq!(histogram_count(&store, "wait"), Some(1));
}

#[test]
fn malformed_names_are_not_registered() {
    let mut store = MetricStore::new();
    int_gauge_inc(&mut store, "");
    int_gauge_inc(&mut store, "1st");
    int_gauge_inc(&mut store, "a-b");
    int_counter_inc(&mut store, "with space");
    assert_eq!(histogram_observe(&mut store, "é", 1, 0), None);
    assert_eq!(store.int_gauges.entries.len(), 0);
    assert_eq!(store.counters.entries.len(), 0);
    assert_eq!(snapshot(&store), "");
}

#[test]
fn metric_name_rules() {
    assert!(is_valid_metric_name("a"));
    assert!(is_valid_metric_name("_x:y_9"));
    assert!(is_valid_metric_name(":colon"));
    assert!(!is_valid_metric_name(""));
    assert!(!is_valid_metric_name("9a"));
    assert!(!is_valid_metric_name("a.b"));
}

#[test]
fn empty_help_refuses_registration() {
    let mut store = MetricStore::new();
    register_int_gauge(&mut store, "g", "");
    register_gauge(&mut store, "f", "");
    register_histogram(&mut store, "h", "", 4);
    register_int_counter(&mut store, "c", "");
    assert_eq!(store.int_gauges.entries.len(), 0);
    assert_eq!(store.gauges.entries.len(), 0);
    assert_eq!(store.histograms.entries.len(), 0);
    assert_eq!(store.counters.entries.len(), 0);
}

#[test]
fn a_name_belongs_to_one_kind() {
    let mut store = MetricStore::new();
    register_int_gauge(&mut store, "x", "first");
    int_counter_inc(&mut store, "x");
    assert_eq!(gauge_inc(&mut store, "x"), None);
    assert_eq!(histogram_observe(&mut store, "x", 1, 0), None);
    assert_eq!(counter(&store, "x"), None);
    assert_eq!(int_gauge(&store, "x"), Some(0));
}

#[test]
fn registration_keeps_the_first_help_and_value() {
    let mut store = MetricStore::new();
    register_int_gauge(&mut store, "g", "first");
    int_gauge_add(&mut store, "g", 7);
    register_int_gauge(&mut store, "g", "second");
    assert_eq!(int_gauge(&store, "g"), Some(7));
    assert_eq!(store.int_gauges.entries[0].help, "first");
}

#[test]
fn gauge_arithmetic() {
    let mut store = MetricStore::new();
    int_gauge_add(&mut store, "g", 10);
    int_gauge_sub(&mut store, "g", 3);
    int_gauge_dec(&mut store, "g");
    assert_eq!(int_gauge(&store, "g"), Some(6));
    int_gauge_set(&mut store, "g", -4);
    assert_eq!(int_gauge(&store, "g"), Some(-4));
}

#[test]
fn gauge_arithmetic_wraps() {
    let mut store = MetricStore::new();
    int_gauge_set(&mut store, "g", i64::MAX);
    int_gauge_inc(&mut store, "g");
    assert_eq!(int_gauge(&store, "g"), Some(i64::MIN));
    int_gauge_dec(&mut store, "g");
    assert_eq!(int_gauge(&store, "g"), Some(i64::MAX));
}

#[test]
fn float_gauges_resolve_to_a_slot() {
    let mut store = MetricStore::new();
    register_gauge(&mut store, "temp", "Temperature");
    assert_eq!(gauge_inc(&mut store, "temp"), Some(0));
    assert_eq!(gauge_dec(&mut store, "other"), Some(1));
    assert_eq!(store.gauges.entries.len(), 2);
    let text = render(&store, &vec!["1.5".to_string(), "-1".to_string()], &vec![], &vec![]);
    assert_eq!(
        text,
        "# HELP temp Temperature\n# TYPE temp gauge\ntemp 1.5\n# HELP other other\n# TYPE other gauge\nother -1\n"
    );
}

#[test]
fn snapshot_orders_kinds() {
    let mut store = MetricStore::new();
    int_counter_inc(&mut store, "c");
    int_gauge_set(&mut store, "b", -12);
    int_gauge_set(&mut store, "a", 305);
    let text = snapshot(&store);
    assert_eq!(
        text,
        "# HELP b b\n# TYPE b gauge\nb -12\n# HELP a a\n# TYPE a gauge\na 305\n# HELP c c\n# TYPE c counter\nc 1\n"
    );
}

#[test]
fn decimal_text() {
    let mut s = String::new();
    push_decimal(&mut s, 0);
    assert_eq!(s, "0");
    let mut s = String::from("v=");
    push_decimal(&mut s, u64::MAX);
    assert_eq!(s, "v=18446744073709551615");
    let mut s = String::new();
    push_signed(&mut s, -42);
    assert_eq!(s, "-42");
    let mut s = String::new();
    push_signed(&mut s, i64::MIN);
    assert_eq!(s, "-9223372036854775808");
}

#[test]
fn help_text_is_escaped() {
    let mut store = MetricStore::new();
    register_int_gauge(&mut store, "a", "first\n# HELP a h");
    register_int_counter(&mut store, "b", "back\\slash");
    register_histogram(&mut store, "c", "two\nlines", 0);
    let text = snapshot(&store);
    assert_eq!(
        text,
        "# HELP a first\\n# HELP a h\n# TYPE a gauge\na 0\n\
         # HELP b back\\\\slash\n# TYPE b counter\nb 0\n\
         # HELP c two\\nlines\n# TYPE c histogram\nc_bucket{le=\"+Inf\"} 0\nc_sum 0\nc_count 0\n"
    );
    assert_eq!(text.lines().filter(|l| l.starts_with("# HELP a")).count(), 1);
}

#[test]
fn help_text_without_specials_is_unchanged() {
    let mut store = MetricStore::new();
    register_int_gauge(&mut store, "a", "plain text: 100%");
    assert_eq!(
        snapshot(&store),
        "# HELP a plain text: 100%\n# TYPE a gauge\na 0\n"
    );
}
