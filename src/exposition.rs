use vstd::prelude::*;

use crate::family::Instrument;
use crate::histogram::{lemma_prefix_sum, seq_sum, HistogramState, HistogramView};
use crate::store::MetricStore;

verus! {

pub open spec fn digit_char(d: nat) -> char {
    if d == 0 { '0' }
    else if d == 1 { '1' }
    else if d == 2 { '2' }
    else if d == 3 { '3' }
    else if d == 4 { '4' }
    else if d == 5 { '5' }
    else if d == 6 { '6' }
    else if d == 7 { '7' }
    else if d == 8 { '8' }
    else { '9' }
}

/// Decimal digits of `n`, most significant first, without leading zeros.
pub open spec fn decimal(n: nat) -> Seq<char>
    decreases n,
{
    if n < 10 {
        seq![digit_char(n)]
    } else {
        decimal(n / 10) + seq![digit_char(n % 10)]
    }
}

/// Decimal text of a signed integer, with a leading `-` when negative.
pub open spec fn signed_decimal(v: int) -> Seq<char> {
    if v < 0 {
        seq!['-'] + decimal((-v) as nat)
    } else {
        decimal(v as nat)
    }
}

fn digit_str(d: u64) -> (r: &'static str)
    requires
        d < 10,
    ensures
        r@ == seq![digit_char(d as nat)],
{
    proof {
        reveal_strlit("0");
        reveal_strlit("1");
        reveal_strlit("2");
        reveal_strlit("3");
        reveal_strlit("4");
        reveal_strlit("5");
        reveal_strlit("6");
        reveal_strlit("7");
        reveal_strlit("8");
        reveal_strlit("9");
    }
    if d == 0 {
        "0"
    } else if d == 1 {
        "1"
    } else if d == 2 {
        "2"
    } else if d == 3 {
        "3"
    } else if d == 4 {
        "4"
    } else if d == 5 {
        "5"
    } else if d == 6 {
        "6"
    } else if d == 7 {
        "7"
    } else if d == 8 {
        "8"
    } else {
        "9"
    }
}

/// Appends the decimal digits of `n`.
pub fn push_decimal(out: &mut String, n: u64)
    ensures
        final(out)@ == old(out)@ + decimal(n as nat),
    decreases n,
{
    let ghost start = out@;
    if n >= 10 {
        push_decimal(out, n / 10);
    }
    out.append(digit_str(n % 10));
    assert(out@ =~= start + decimal(n as nat));
}

/// Appends the decimal text of `v`.
pub fn push_signed(out: &mut String, v: i64)
    ensures
        final(out)@ == old(out)@ + signed_decimal(v as int),
{
    let ghost start = out@;
    if v < 0 {
        proof {
            reveal_strlit("-");
        }
        out.append("-");
        let m: u64 = (-(v as i128)) as u64;
        push_decimal(out, m);
        assert(out@ =~= start + signed_decimal(v as int));
    } else {
        push_decimal(out, v as u64);
    }
}

/// Help text as the text format writes it: a backslash becomes `\\` and a
/// line break becomes `\n`; every other character stands for itself.
pub open spec fn escape_char(c: char) -> Seq<char> {
    if c == '\\' {
        seq!['\\', '\\']
    } else if c == '\n' {
        seq!['\\', 'n']
    } else {
        seq![c]
    }
}

pub open spec fn escape_help(s: Seq<char>) -> Seq<char>
    decreases s.len(),
{
    if s.len() == 0 {
        Seq::empty()
    } else {
        escape_help(s.drop_last()) + escape_char(s.last())
    }
}

/// A run of characters that need no escaping is written as it is.
pub proof fn lemma_plain_run(s: Seq<char>, a: int, b: int)
    requires
        0 <= a <= b <= s.len(),
        forall|j: int| a <= j < b ==> s[j] != '\\' && s[j] != '\n',
    ensures
        escape_help(s.take(b)) == escape_help(s.take(a)) + s.subrange(a, b),
    decreases b - a,
{
    if b == a {
        assert(s.subrange(a, b) =~= Seq::<char>::empty());
        assert(escape_help(s.take(a)) + s.subrange(a, b) =~= escape_help(s.take(a)));
    } else {
        lemma_plain_run(s, a, b - 1);
        assert(s.take(b).drop_last() =~= s.take(b - 1));
        assert(s.subrange(a, b) =~= s.subrange(a, b - 1) + seq![s[b - 1]]);
        assert(escape_help(s.take(b)) =~= escape_help(s.take(a)) + s.subrange(a, b));
    }
}

/// Appends `help` with backslashes and line breaks escaped.
pub fn push_escaped_help(out: &mut String, help: &str)
    ensures
        final(out)@ == old(out)@ + escape_help(help@),
{
    let ghost start = out@;
    let n = help.unicode_len();
    let mut run: usize = 0;
    let mut i: usize = 0;
    while i < n
        invariant
            n == help@.len(),
            run <= i <= n,
            out@ == start + escape_help(help@.take(run as int)),
            forall|j: int| run <= j < i ==> help@[j] != '\\' && help@[j] != '\n',
        decreases n - i,
    {
        let c = help.get_char(i);
        if c == '\\' || c == '\n' {
            out.append(help.substring_char(run, i));
            proof {
                lemma_plain_run(help@, run as int, i as int);
            }
            let ghost mid = out@;
            proof {
                reveal_strlit("\\");
                reveal_strlit("n");
            }
            if c == '\\' {
                out.append("\\");
                out.append("\\");
            } else {
                out.append("\\");
                out.append("n");
            }
            assert(out@ =~= mid + escape_char(c));
            proof {
                let t = help@.take(i + 1);
                assert(t.last() == c);
                assert(t.drop_last() =~= help@.take(i as int));
                assert(out@ =~= start + escape_help(t));
            }
            run = i + 1;
        }
        i = i + 1;
    }
    out.append(help.substring_char(run, n));
    proof {
        lemma_plain_run(help@, run as int, n as int);
        assert(help@.take(n as int) =~= help@);
        assert(out@ =~= start + escape_help(help@));
    }
}

/// One instrument's lines: `# HELP`, `# TYPE`, then `name value`.
pub open spec fn sample(name: Seq<char>, help: Seq<char>, kind: Seq<char>, value: Seq<char>) -> Seq<char> {
    "# HELP "@ + name + " "@ + escape_help(help) + "\n"@
        + "# TYPE "@ + name + " "@ + kind + "\n"@
        + name + " "@ + value + "\n"@
}

/// Cumulative bucket lines `name_bucket{le="bound"} n` for the first `j`
/// finite buckets, where `n` counts the observations up to that bound.
pub open spec fn bucket_lines(name: Seq<char>, bounds: Seq<String>, buckets: Seq<u64>, j: nat) -> Seq<char>
    decreases j,
{
    if j == 0 {
        Seq::empty()
    } else {
        bucket_lines(name, bounds, buckets, (j - 1) as nat) + name + "_bucket{le=\""@ + bounds[j - 1]@
            + "\"} "@ + decimal(seq_sum(buckets.take(j as int))) + "\n"@
    }
}

/// A histogram's `# HELP` and `# TYPE` lines.
pub open spec fn histogram_head(name: Seq<char>, help: Seq<char>) -> Seq<char> {
    "# HELP "@ + name + " "@ + escape_help(help) + "\n"@ + "# TYPE "@ + name + " histogram\n"@
}

/// A histogram's catch-all bucket, sum and count lines.
pub open spec fn histogram_tail(name: Seq<char>, count: nat, sum: Seq<char>) -> Seq<char> {
    name + "_bucket{le=\"+Inf\"} "@ + decimal(count) + "\n"@
        + name + "_sum "@ + sum + "\n"@
        + name + "_count "@ + decimal(count) + "\n"@
}

/// A histogram's lines: `# HELP`, `# TYPE`, its cumulative buckets ending
/// with the catch-all one, then its sum and count.
pub open spec fn histogram_sample(name: Seq<char>, help: Seq<char>, bounds: Seq<String>, h: HistogramView, sum: Seq<char>) -> Seq<char> {
    histogram_head(name, help) + bucket_lines(name, bounds, h.buckets, h.buckets.len())
        + histogram_tail(name, h.count as nat, sum)
}

pub open spec fn int_gauge_text(es: Seq<Instrument<i64>>) -> Seq<char>
    decreases es.len(),
{
    if es.len() == 0 {
        Seq::empty()
    } else {
        let e = es.last();
        int_gauge_text(es.drop_last()) + sample(e.name@, e.help@, "gauge"@, signed_decimal(e.value as int))
    }
}

pub open spec fn counter_text(es: Seq<Instrument<u64>>) -> Seq<char>
    decreases es.len(),
{
    if es.len() == 0 {
        Seq::empty()
    } else {
        let e = es.last();
        counter_text(es.drop_last()) + sample(e.name@, e.help@, "counter"@, decimal(e.value as nat))
    }
}

/// Float gauges, each with the text of its value at the same position.
pub open spec fn gauge_text(es: Seq<Instrument<()>>, values: Seq<String>) -> Seq<char>
    decreases es.len(),
{
    if es.len() == 0 {
        Seq::empty()
    } else {
        let e = es.last();
        gauge_text(es.drop_last(), values) + sample(e.name@, e.help@, "gauge"@, values[es.len() - 1]@)
    }
}

/// Histograms, each with the texts of its bucket bounds and of its sum at
/// the same position.
pub open spec fn histogram_text(es: Seq<Instrument<HistogramState>>, bounds: Seq<Vec<String>>, sums: Seq<String>) -> Seq<char>
    decreases es.len(),
{
    if es.len() == 0 {
        Seq::empty()
    } else {
        let k = es.len() - 1;
        let e = es.last();
        histogram_text(es.drop_last(), bounds, sums) + histogram_sample(e.name@, e.help@, bounds[k]@, e.value@, sums[k]@)
    }
}

/// The whole snapshot: integer gauges, float gauges, counters, then
/// histograms, each kind in order of registration.
pub open spec fn exposition(
    store: &MetricStore,
    gauge_values: Seq<String>,
    histogram_bounds: Seq<Vec<String>>,
    histogram_sums: Seq<String>,
) -> Seq<char> {
    int_gauge_text(store.int_gauges.entries@)
        + gauge_text(store.gauges.entries@, gauge_values)
        + counter_text(store.counters.entries@)
        + histogram_text(store.histograms.entries@, histogram_bounds, histogram_sums)
}

fn push_sample(out: &mut String, name: &str, help: &str, kind: &str)
    ensures
        final(out)@ == old(out)@ + "# HELP "@ + name@ + " "@ + escape_help(help@) + "\n"@
            + "# TYPE "@ + name@ + " "@ + kind@ + "\n"@ + name@ + " "@,
{
    out.append("# HELP ");
    out.append(name);
    out.append(" ");
    push_escaped_help(out, help);
    out.append("\n");
    out.append("# TYPE ");
    out.append(name);
    out.append(" ");
    out.append(kind);
    out.append("\n");
    out.append(name);
    out.append(" ");
}

fn push_int_gauge_sample(out: &mut String, e: &Instrument<i64>)
    ensures
        final(out)@ == old(out)@ + sample(e.name@, e.help@, "gauge"@, signed_decimal(e.value as int)),
{
    let ghost start = out@;
    push_sample(out, e.name.as_str(), e.help.as_str(), "gauge");
    push_signed(out, e.value);
    out.append("\n");
    assert(out@ =~= start + sample(e.name@, e.help@, "gauge"@, signed_decimal(e.value as int)));
}

fn push_gauge_sample(out: &mut String, e: &Instrument<()>, value: &String)
    ensures
        final(out)@ == old(out)@ + sample(e.name@, e.help@, "gauge"@, value@),
{
    let ghost start = out@;
    push_sample(out, e.name.as_str(), e.help.as_str(), "gauge");
    out.append(value.as_str());
    out.append("\n");
    assert(out@ =~= start + sample(e.name@, e.help@, "gauge"@, value@));
}

fn push_counter_sample(out: &mut String, e: &Instrument<u64>)
    ensures
        final(out)@ == old(out)@ + sample(e.name@, e.help@, "counter"@, decimal(e.value as nat)),
{
    let ghost start = out@;
    push_sample(out, e.name.as_str(), e.help.as_str(), "counter");
    push_decimal(out, e.value);
    out.append("\n");
    assert(out@ =~= start + sample(e.name@, e.help@, "counter"@, decimal(e.value as nat)));
}

fn push_int_gauges(out: &mut String, es: &Vec<Instrument<i64>>)
    ensures
        final(out)@ == old(out)@ + int_gauge_text(es@),
{
    let ghost start = out@;
    let mut i: usize = 0;
    while i < es.len()
        invariant
            0 <= i <= es@.len(),
            out@ == start + int_gauge_text(es@.take(i as int)),
        decreases es@.len() - i,
    {
        push_int_gauge_sample(out, &es[i]);
        proof {
            let t = es@.take(i + 1);
            assert(t.drop_last() =~= es@.take(i as int));
            assert(out@ =~= start + int_gauge_text(t));
        }
        i = i + 1;
    }
    assert(es@.take(es@.len() as int) =~= es@);
}

fn push_gauges(out: &mut String, es: &Vec<Instrument<()>>, values: &Vec<String>)
    requires
        values@.len() == es@.len(),
    ensures
        final(out)@ == old(out)@ + gauge_text(es@, values@),
{
    let ghost start = out@;
    let mut i: usize = 0;
    while i < es.len()
        invariant
            0 <= i <= es@.len(),
            values@.len() == es@.len(),
            out@ == start + gauge_text(es@.take(i as int), values@),
        decreases es@.len() - i,
    {
        push_gauge_sample(out, &es[i], &values[i]);
        proof {
            let t = es@.take(i + 1);
            assert(t.drop_last() =~= es@.take(i as int));
            assert(out@ =~= start + gauge_text(t, values@));
        }
        i = i + 1;
    }
    assert(es@.take(es@.len() as int) =~= es@);
}

fn push_counters(out: &mut String, es: &Vec<Instrument<u64>>)
    ensures
        final(out)@ == old(out)@ + counter_text(es@),
{
    let ghost start = out@;
    let mut i: usize = 0;
    while i < es.len()
        invariant
            0 <= i <= es@.len(),
            out@ == start + counter_text(es@.take(i as int)),
        decreases es@.len() - i,
    {
        push_counter_sample(out, &es[i]);
        proof {
            let t = es@.take(i + 1);
            assert(t.drop_last() =~= es@.take(i as int));
            assert(out@ =~= start + counter_text(t));
        }
        i = i + 1;
    }
    assert(es@.take(es@.len() as int) =~= es@);
}

fn push_bucket_lines(out: &mut String, name: &str, bounds: &Vec<String>, buckets: &Vec<u64>)
    requires
        bounds@.len() == buckets@.len(),
        seq_sum(buckets@) <= u64::MAX,
    ensures
        final(out)@ == old(out)@ + bucket_lines(name@, bounds@, buckets@, buckets@.len()),
{
    let ghost start = out@;
    let mut acc: u64 = 0;
    let mut j: usize = 0;
    while j < buckets.len()
        invariant
            0 <= j <= buckets@.len(),
            bounds@.len() == buckets@.len(),
            seq_sum(buckets@) <= u64::MAX,
            acc == seq_sum(buckets@.take(j as int)),
            out@ == start + bucket_lines(name@, bounds@, buckets@, j as nat),
        decreases buckets@.len() - j,
    {
        proof {
            lemma_prefix_sum(buckets@, j as int);
        }
        acc = acc + buckets[j];
        out.append(name);
        out.append("_bucket{le=\"");
        out.append(bounds[j].as_str());
        out.append("\"} ");
        push_decimal(out, acc);
        out.append("\n");
        j = j + 1;
        assert(out@ =~= start + bucket_lines(name@, bounds@, buckets@, j as nat));
    }
}

fn push_histogram_head(out: &mut String, name: &str, help: &str)
    ensures
        final(out)@ == old(out)@ + histogram_head(name@, help@),
{
    let ghost start = out@;
    out.append("# HELP ");
    out.append(name);
    out.append(" ");
    push_escaped_help(out, help);
    out.append("\n");
    out.append("# TYPE ");
    out.append(name);
    out.append(" histogram\n");
    assert(out@ =~= start + histogram_head(name@, help@));
}

fn push_histogram_tail(out: &mut String, name: &str, count: u64, sum: &str)
    ensures
        final(out)@ == old(out)@ + histogram_tail(name@, count as nat, sum@),
{
    let ghost start = out@;
    out.append(name);
    out.append("_bucket{le=\"+Inf\"} ");
    push_decimal(out, count);
    out.append("\n");
    out.append(name);
    out.append("_sum ");
    out.append(sum);
    out.append("\n");
    out.append(name);
    out.append("_count ");
    push_decimal(out, count);
    out.append("\n");
    assert(out@ =~= start + histogram_tail(name@, count as nat, sum@));
}

fn push_histogram(out: &mut String, name: &str, help: &str, bounds: &Vec<String>, h: &HistogramState, sum: &str)
    requires
        h@.wf(),
        bounds@.len() == h.buckets@.len(),
    ensures
        final(out)@ == old(out)@ + histogram_sample(name@, help@, bounds@, h@, sum@),
{
    let ghost start = out@;
    push_histogram_head(out, name, help);
    push_bucket_lines(out, name, bounds, &h.buckets);
    push_histogram_tail(out, name, h.count, sum);
    let ghost a = histogram_head(name@, help@);
    let ghost b = bucket_lines(name@, bounds@, h.buckets@, h.buckets@.len());
    let ghost c = histogram_tail(name@, h.count as nat, sum@);
    assert(out@ =~= start + (a + b + c));
}

fn push_histograms(out: &mut String, es: &Vec<Instrument<HistogramState>>, bounds: &Vec<Vec<String>>, sums: &Vec<String>)
    requires
        bounds@.len() == es@.len(),
        sums@.len() == es@.len(),
        forall|k: int| 0 <= k < es@.len() ==> (#[trigger] es@[k]).value@.wf(),
        forall|k: int| 0 <= k < es@.len() ==> (#[trigger] bounds@[k])@.len() == es@[k].value.buckets@.len(),
    ensures
        final(out)@ == old(out)@ + histogram_text(es@, bounds@, sums@),
{
    let ghost start = out@;
    let mut i: usize = 0;
    while i < es.len()
        invariant
            0 <= i <= es@.len(),
            bounds@.len() == es@.len(),
            sums@.len() == es@.len(),
            forall|k: int| 0 <= k < es@.len() ==> (#[trigger] es@[k]).value@.wf(),
            forall|k: int| 0 <= k < es@.len() ==> (#[trigger] bounds@[k])@.len() == es@[k].value.buckets@.len(),
            out@ == start + histogram_text(es@.take(i as int), bounds@, sums@),
        decreases es@.len() - i,
    {
        let e = &es[i];
        assert(es@[i as int].value@.wf());
        assert(bounds@[i as int]@.len() == es@[i as int].value.buckets@.len());
        push_histogram(out, e.name.as_str(), e.help.as_str(), &bounds[i], &e.value, sums[i].as_str());
        proof {
            let t = es@.take(i + 1);
            assert(t.drop_last() =~= es@.take(i as int));
            assert(out@ =~= start + histogram_text(t, bounds@, sums@));
        }
        i = i + 1;
    }
    assert(es@.take(es@.len() as int) =~= es@);
}

/// The text exposition of every instrument of `store`. The host hands in,
/// by position, the text of each float gauge's value, and of each
/// histogram's finite bucket bounds and sum.
pub fn render(
    store: &MetricStore,
    gauge_values: &Vec<String>,
    histogram_bounds: &Vec<Vec<String>>,
    histogram_sums: &Vec<String>,
) -> (r: String)
    requires
        store.wf(),
        gauge_values@.len() == store.gauges.entries@.len(),
        histogram_bounds@.len() == store.histograms.entries@.len(),
        histogram_sums@.len() == store.histograms.entries@.len(),
        forall|k: int| 0 <= k < histogram_bounds@.len()
            ==> (#[trigger] histogram_bounds@[k])@.len() == store.histograms.entries@[k].value.buckets@.len(),
    ensures
        r@ == exposition(store, gauge_values@, histogram_bounds@, histogram_sums@),
{
    let hs = &store.histograms;
    assert forall|k: int| 0 <= k < hs.entries@.len() implies (#[trigger] hs.entries@[k]).value@.wf() by {
        let n = hs.entries@[k].name@;
        hs.lemma_index_unique(n, k);
        assert(store@.histograms.contains_key(n));
    }
    let mut out = String::new();
    push_int_gauges(&mut out, &store.int_gauges.entries);
    push_gauges(&mut out, &store.gauges.entries, gauge_values);
    push_counters(&mut out, &store.counters.entries);
    push_histograms(&mut out, &hs.entries, histogram_bounds, histogram_sums);
    assert(out@ =~= exposition(store, gauge_values@, histogram_bounds@, histogram_sums@));
    out
}

} // verus!
