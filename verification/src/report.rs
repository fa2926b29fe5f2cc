//! Turning what all connections measured into the run's `Perf` report.
use vstd::prelude::*;
use vstd::relations::{sorted_by, total_ordering};
use vstd::seq_lib::lemma_sorted_unique;
use crate::stat::{percentile, percentile_index, Count, Perf};

verus! {

/// The order latencies are sorted by.
pub open spec fn nanos_le() -> spec_fn(u128, u128) -> bool {
    |a: u128, b: u128| a <= b
}

/// The latencies in ascending order.
pub open spec fn sorted_nanos(s: Seq<u128>) -> Seq<u128> {
    s.sort_by(nanos_le())
}

/// A latency in whole microseconds, cut to 32 bits the way `as u32` does.
pub open spec fn micros_u32(nanos: u128) -> u32 {
    (nanos / 1000) as u32
}

/// The `n`-th percentile of the latencies, in microseconds.
pub open spec fn report_percentile(latency: Seq<u128>, n: int) -> u32 {
    micros_u32(sorted_nanos(latency)[percentile_index(latency.len() as int, n)])
}

/// The report of a run that sent `send` requests in `duration` seconds and
/// measured `latency`.
pub open spec fn report_spec(send: u64, duration: u64, latency: Seq<u128>) -> Perf {
    Perf {
        iops: (send / duration) as u64,
        p10: report_percentile(latency, 10),
        p50: report_percentile(latency, 50),
        p95: report_percentile(latency, 95),
        p99: report_percentile(latency, 99),
    }
}

proof fn lemma_nanos_le_total()
    ensures
        total_ordering(nanos_le()),
{
}

/// What std's `slice::sort` does to a vector of latencies: it puts the same
/// elements, each as often as before, in ascending order.
#[verifier::external_body]
fn sort_latencies(v: &mut Vec<u128>)
    ensures
        sorted_by(final(v)@, nanos_le()),
        final(v)@.to_multiset() == old(v)@.to_multiset(),
{
    v.sort();
}

/// Sorts the latencies and reads off the report: requests per second, and
/// the 10th, 50th, 95th and 99th percentiles in microseconds.
///
/// Division by a zero duration and a percentile of no latency at all both
/// panic, so neither is accepted.
pub fn summarize(counts: &Count, duration: u64, latency: Vec<u128>) -> (perf: Perf)
    requires
        duration > 0,
        latency@.len() > 0,
        latency@.len() * 99 <= usize::MAX,
    ensures
        perf == report_spec(counts.send, duration, latency@),
        perf.iops == counts.send / duration,
        forall|s: Seq<u128>|
            (forall|i: int, j: int| 0 <= i <= j < s.len() ==> s[i] <= s[j])
                && #[trigger] s.to_multiset() == latency@.to_multiset() ==> {
                &&& perf.p10 == ((s[(s.len() * 10 / 100) as int] / 1000) as u32)
                &&& perf.p50 == ((s[(s.len() * 50 / 100) as int] / 1000) as u32)
                &&& perf.p95 == ((s[(s.len() * 95 / 100) as int] / 1000) as u32)
                &&& perf.p99 == ((s[(s.len() * 99 / 100) as int] / 1000) as u32)
            },
{
    let ghost orig = latency@;
    let mut latency = latency;
    sort_latencies(&mut latency);
    proof {
        broadcast use vstd::seq_lib::group_to_multiset_ensures;
        lemma_nanos_le_total();
        orig.lemma_sort_by_ensures(nanos_le());
        lemma_sorted_unique(latency@, sorted_nanos(orig), nanos_le());
        assert(latency@.to_multiset().len() == orig.to_multiset().len());
    }
    let qps = counts.send / duration;
    let p10 = percentile(10, latency.as_slice());
    let p50 = percentile(50, latency.as_slice());
    let p95 = percentile(95, latency.as_slice());
    let p99 = percentile(99, latency.as_slice());
    proof {
        assert forall|s: Seq<u128>|
            (forall|i: int, j: int| 0 <= i <= j < s.len() ==> s[i] <= s[j])
                && #[trigger] s.to_multiset() == orig.to_multiset() implies {
                &&& report_spec(counts.send, duration, orig).p10 == ((s[(s.len() * 10 / 100) as int] / 1000) as u32)
                &&& report_spec(counts.send, duration, orig).p50 == ((s[(s.len() * 50 / 100) as int] / 1000) as u32)
                &&& report_spec(counts.send, duration, orig).p95 == ((s[(s.len() * 95 / 100) as int] / 1000) as u32)
                &&& report_spec(counts.send, duration, orig).p99 == ((s[(s.len() * 99 / 100) as int] / 1000) as u32)
            } by {
            lemma_report_reads_sorted_latencies(counts.send, duration, orig, s);
        }
    }
    Perf {
        iops: qps,
        p10: #[verifier::truncate] ((p10 / 1000) as u32),
        p50: #[verifier::truncate] ((p50 / 1000) as u32),
        p95: #[verifier::truncate] ((p95 / 1000) as u32),
        p99: #[verifier::truncate] ((p99 / 1000) as u32),
    }
}

/// The sorted latencies are the latencies: same length, same elements.
proof fn lemma_sorted_nanos(s: Seq<u128>)
    ensures
        sorted_by(sorted_nanos(s), nanos_le()),
        sorted_nanos(s).to_multiset() == s.to_multiset(),
        sorted_nanos(s).len() == s.len(),
        forall|i: int| 0 <= i < s.len() ==> s.contains(#[trigger] sorted_nanos(s)[i]),
{
    broadcast use vstd::seq_lib::group_to_multiset_ensures;

    lemma_nanos_le_total();
    s.lemma_sort_by_ensures(nanos_le());
    assert(sorted_nanos(s).to_multiset().len() == s.to_multiset().len());
    assert forall|i: int| 0 <= i < s.len() implies s.contains(#[trigger] sorted_nanos(s)[i]) by {
        assert(sorted_nanos(s).contains(sorted_nanos(s)[i]));
    }
}

/// The report reads its percentiles off the latencies in ascending order:
/// for any ascending arrangement `s` of the measured latencies, the `n`-th
/// percentile is the sample at index `len * n / 100` of `s`, in whole
/// microseconds cut to 32 bits, and the rate is the requests sent divided by
/// the duration.
pub proof fn lemma_report_reads_sorted_latencies(send: u64, duration: u64, latency: Seq<u128>, s: Seq<u128>)
    requires
        duration > 0,
        forall|i: int, j: int| 0 <= i <= j < s.len() ==> s[i] <= s[j],
        s.to_multiset() == latency.to_multiset(),
    ensures
        s.len() == latency.len(),
        report_spec(send, duration, latency).iops == send / duration,
        report_spec(send, duration, latency).p10 == ((s[(s.len() * 10 / 100) as int] / 1000) as u32),
        report_spec(send, duration, latency).p50 == ((s[(s.len() * 50 / 100) as int] / 1000) as u32),
        report_spec(send, duration, latency).p95 == ((s[(s.len() * 95 / 100) as int] / 1000) as u32),
        report_spec(send, duration, latency).p99 == ((s[(s.len() * 99 / 100) as int] / 1000) as u32),
{
    broadcast use vstd::seq_lib::group_to_multiset_ensures;

    lemma_nanos_le_total();
    lemma_sorted_nanos(latency);
    assert(sorted_by(s, nanos_le())) by {
        assert forall|i: int, j: int| 0 <= i < j < s.len() implies #[trigger] nanos_le()(s[i], s[j]) by {
            assert(s[i] <= s[j]);
        }
    }
    lemma_sorted_unique(s, sorted_nanos(latency), nanos_le());
    assert(s.to_multiset().len() == latency.to_multiset().len());
}

/// The report does not depend on the order in which the latencies were
/// collected: two runs whose latencies are the same multiset report alike.
pub proof fn lemma_report_order_independent(send: u64, duration: u64, a: Seq<u128>, b: Seq<u128>)
    requires
        a.to_multiset() == b.to_multiset(),
    ensures
        report_spec(send, duration, a) == report_spec(send, duration, b),
{
    broadcast use vstd::seq_lib::group_to_multiset_ensures;

    lemma_nanos_le_total();
    lemma_sorted_nanos(a);
    lemma_sorted_nanos(b);
    lemma_sorted_unique(sorted_nanos(a), sorted_nanos(b), nanos_le());
    assert(a.to_multiset().len() == b.to_multiset().len());
}

/// Every reported percentile comes from a latency that was measured: the
/// sample it is read off is one of the input latencies.
pub proof fn lemma_percentile_is_sample(latency: Seq<u128>, n: int)
    requires
        latency.len() > 0,
        0 <= n < 100,
    ensures
        0 <= percentile_index(latency.len() as int, n) < latency.len(),
        latency.contains(sorted_nanos(latency)[percentile_index(latency.len() as int, n)]),
{
    lemma_percentile_index_bounds(latency.len() as int, n);
    lemma_sorted_nanos(latency);
}

proof fn lemma_percentile_index_bounds(len: int, n: int)
    requires
        len > 0,
        0 <= n < 100,
    ensures
        0 <= percentile_index(len, n) < len,
{
    assert(0 <= len * n <= len * 99) by (nonlinear_arith)
        requires
            len > 0,
            0 <= n < 100,
    ;
    assert(len * n / 100 < len) by (nonlinear_arith)
        requires
            len > 0,
            0 <= len * n <= len * 99,
    ;
}

proof fn lemma_percentile_index_monotone(len: int, m: int, n: int)
    requires
        len > 0,
        0 <= m <= n < 100,
    ensures
        percentile_index(len, m) <= percentile_index(len, n),
{
    assert(len * m <= len * n) by (nonlinear_arith)
        requires
            len > 0,
            0 <= m <= n,
    ;
    vstd::arithmetic::div_mod::lemma_div_is_ordered(len * m, len * n, 100);
}

/// On sorted latencies a higher percentile is never smaller: for
/// `n1 <= n2 < 100`, the sample `percentile` reads for `n1` is at most the one
/// it reads for `n2`.
pub proof fn lemma_percentile_monotone(latency: Seq<u128>, n1: int, n2: int)
    requires
        sorted_by(latency, nanos_le()),
        latency.len() > 0,
        0 <= n1 <= n2 < 100,
    ensures
        0 <= percentile_index(latency.len() as int, n1) < latency.len(),
        0 <= percentile_index(latency.len() as int, n2) < latency.len(),
        latency[percentile_index(latency.len() as int, n1)] <= latency[percentile_index(
            latency.len() as int,
            n2,
        )],
{
    let len = latency.len() as int;
    lemma_percentile_index_bounds(len, n1);
    lemma_percentile_index_bounds(len, n2);
    lemma_percentile_index_monotone(len, n1, n2);
    let i = percentile_index(len, n1);
    let j = percentile_index(len, n2);
    if i < j {
        assert(nanos_le()(latency[i], latency[j]));
    }
}

/// The reported percentiles never decrease from the 10th to the 99th, as
/// long as every latency, in microseconds, fits the 32 bits of the report.
pub proof fn lemma_percentiles_ordered(latency: Seq<u128>)
    requires
        latency.len() > 0,
        forall|i: int| 0 <= i < latency.len() ==> #[trigger] latency[i] / 1000 <= u32::MAX,
    ensures
        report_percentile(latency, 10) <= report_percentile(latency, 50),
        report_percentile(latency, 50) <= report_percentile(latency, 95),
        report_percentile(latency, 95) <= report_percentile(latency, 99),
{
    let len = latency.len() as int;
    let s = sorted_nanos(latency);
    lemma_sorted_nanos(latency);
    lemma_percentile_index_bounds(len, 10);
    lemma_percentile_index_bounds(len, 50);
    lemma_percentile_index_bounds(len, 95);
    lemma_percentile_index_bounds(len, 99);
    lemma_percentile_index_monotone(len, 10, 50);
    lemma_percentile_index_monotone(len, 50, 95);
    lemma_percentile_index_monotone(len, 95, 99);
    assert forall|i: int, j: int| 0 <= i <= j < len implies #[trigger] s[i] <= #[trigger] s[j] by {
        if i < j {
            assert(nanos_le()(s[i], s[j]));
        }
    }
    assert forall|i: int| 0 <= i < len implies #[trigger] s[i] / 1000 <= u32::MAX by {
        let k = choose|k: int| 0 <= k < len && latency[k] == s[i];
        assert(latency[k] / 1000 <= u32::MAX);
    }
    assert forall|i: int, j: int| 0 <= i <= j < len implies micros_u32(#[trigger] s[i]) <= micros_u32(
        #[trigger] s[j],
    ) by {
        vstd::arithmetic::div_mod::lemma_div_is_ordered(s[i] as int, s[j] as int, 1000);
    }
}

} // verus!
