//! Traffic counters, run parameters, the performance report and the
//! latency statistics it is made of.
//!
//! A latency is held as a whole number of nanoseconds (`u128`, the unit of
//! `Duration::as_nanos`).
use vstd::prelude::*;

verus! {

/// Largest number of nanoseconds a `Duration` can hold: `u64::MAX` seconds
/// and `999_999_999` nanoseconds.
pub const MAX_DURATION_NANOS: u128 = 18_446_744_073_709_551_615_999_999_999u128;

/// Counters of one connection, or of all of them once merged.
#[derive(Debug)]
pub struct Count {
    pub send: u64,
    pub recv: u64,
    pub send_bytes: u64,
    pub recv_bytes: u64,
}

impl Default for Count {
    fn default() -> (r: Count)
        ensures
            r.send == 0,
            r.recv == 0,
            r.send_bytes == 0,
            r.recv_bytes == 0,
    {
        Count { send: 0, recv: 0, send_bytes: 0, recv_bytes: 0 }
    }
}

/// The counters of `a` and `b` added field by field.
pub open spec fn merged(a: Count, b: Count) -> Count {
    Count {
        send: (a.send + b.send) as u64,
        recv: (a.recv + b.recv) as u64,
        send_bytes: (a.send_bytes + b.send_bytes) as u64,
        recv_bytes: (a.recv_bytes + b.recv_bytes) as u64,
    }
}

/// No field of `a` and `b` added together leaves 64 bits.
pub open spec fn can_merge(a: Count, b: Count) -> bool {
    &&& a.send + b.send <= u64::MAX
    &&& a.recv + b.recv <= u64::MAX
    &&& a.send_bytes + b.send_bytes <= u64::MAX
    &&& a.recv_bytes + b.recv_bytes <= u64::MAX
}

impl Count {
    /// Adds another connection's counters to these.
    pub fn merge(&mut self, other: &Count)
        requires
            can_merge(*old(self), *other),
        ensures
            *final(self) == merged(*old(self), *other),
    {
        self.send = self.send + other.send;
        self.recv = self.recv + other.recv;
        self.send_bytes = self.send_bytes + other.send_bytes;
        self.recv_bytes = self.recv_bytes + other.recv_bytes;
    }
}

/// All counters are zero.
pub open spec fn is_zero(c: Count) -> bool {
    c.send == 0 && c.recv == 0 && c.send_bytes == 0 && c.recv_bytes == 0
}

/// Merging in the counters of a connection that counted nothing changes
/// nothing, and merged totals do not depend on the order in which the
/// connections report: merging is commutative and associative.
pub proof fn lemma_merge_laws(a: Count, b: Count, c: Count, z: Count)
    requires
        is_zero(z),
        can_merge(a, b),
        can_merge(merged(a, b), c),
    ensures
        merged(a, z) == a,
        can_merge(b, a),
        merged(a, b) == merged(b, a),
        can_merge(b, c),
        can_merge(a, merged(b, c)),
        merged(merged(a, b), c) == merged(a, merged(b, c)),
{
}

/// Megabits per second (of 2^20 bits) for `bytes` moved in `secs` seconds:
/// `bytes / secs / 1024 / 128`.
pub fn bandwidth_mbps(bytes: u64, secs: u64) -> (r: u64)
    requires
        secs > 0,
    ensures
        r == bytes / secs / 1024 / 128,
{
    bytes / secs / 1024 / 128
}

/// The three divisions of `bandwidth_mbps` are one division by
/// `secs * 131072`, so the result is the exact rate rounded down.
pub proof fn lemma_bandwidth_single_division(bytes: u64, secs: u64)
    requires
        secs > 0,
    ensures
        bytes / secs / 1024 / 128 == bytes as int / (secs * 131072),
{
    vstd::arithmetic::div_mod::lemma_div_denominator(bytes as int, secs as int, 1024);
    vstd::arithmetic::div_mod::lemma_div_denominator(bytes as int, secs * 1024, 128);
    assert(secs * 1024 * 128 == secs * 131072);
}

/// The parameters of one benchmark run.
#[derive(Debug)]
pub struct Args {
    pub addr: String,
    pub duration: u64,
    pub number: u32,
    pub length: usize,
    pub rw_ratio: u32,
}

impl Default for Args {
    fn default() -> (r: Args)
        ensures
            r.addr@ == Seq::<char>::empty(),
            r.duration == 0,
            r.number == 0,
            r.length == 0,
            r.rw_ratio == 100,
    {
        Args { addr: String::new(), duration: 0, number: 0, length: 0, rw_ratio: 100 }
    }
}

/// What a run reports: operations per second and the latency percentiles in
/// microseconds.
#[derive(Debug)]
pub struct Perf {
    pub iops: u64,
    pub p10: u32,
    pub p50: u32,
    pub p95: u32,
    pub p99: u32,
}

impl Default for Perf {
    fn default() -> (r: Perf)
        ensures
            r.iops == 0,
            r.p10 == 0,
            r.p50 == 0,
            r.p95 == 0,
            r.p99 == 0,
    {
        Perf { iops: 0, p10: 0, p50: 0, p95: 0, p99: 0 }
    }
}

/// Index of the `n`-th percentile in a sorted sequence of `len` samples.
pub open spec fn percentile_index(len: int, n: int) -> int {
    len * n / 100
}

/// The `n`-th percentile of `latency`, which is taken to be sorted: the
/// sample at index `len * n / 100`.
///
/// The index must be in bounds, so `n` is at most 99 for a non-empty input.
pub fn percentile<T: Copy>(n: usize, latency: &[T]) -> (r: T)
    requires
        latency@.len() * n <= usize::MAX,
        percentile_index(latency@.len() as int, n as int) < latency@.len(),
    ensures
        r == latency@[percentile_index(latency@.len() as int, n as int)],
{
    let ind = latency.len() * n / 100;
    latency[ind]
}

/// Sum of a sequence of latencies.
pub open spec fn total_nanos(s: Seq<u128>) -> int
    decreases s.len(),
{
    if s.len() == 0 {
        0
    } else {
        total_nanos(s.drop_last()) + s.last()
    }
}

proof fn lemma_total_prefix(s: Seq<u128>, i: int)
    requires
        0 <= i <= s.len(),
    ensures
        0 <= total_nanos(s.take(i)) <= total_nanos(s),
    decreases s.len() - i,
{
    if i == s.len() {
        assert(s.take(i) =~= s);
        lemma_total_nonneg(s);
    } else {
        lemma_total_prefix(s, i + 1);
        assert(s.take(i + 1).drop_last() =~= s.take(i));
        lemma_total_nonneg(s.take(i));
    }
}

proof fn lemma_total_nonneg(s: Seq<u128>)
    ensures
        total_nanos(s) >= 0,
    decreases s.len(),
{
    if s.len() > 0 {
        lemma_total_nonneg(s.drop_last());
    }
}

/// The mean latency as an exact fraction: `r.0 / r.1` nanoseconds, the
/// total of the latencies over their number.
///
/// Rounding that fraction to a `Duration` goes through floating point
/// (`Duration::from_secs_f64(total.as_secs_f64() / count as f64)`) and is
/// left to the caller. The running total is a `Duration`, which must not
/// overflow, and an empty input has no mean (the float quotient is NaN and
/// `from_secs_f64` panics).
pub fn average(latency: &[u128]) -> (r: (u128, usize))
    requires
        latency@.len() > 0,
        total_nanos(latency@) <= MAX_DURATION_NANOS,
    ensures
        r.0 == total_nanos(latency@),
        r.1 == latency@.len(),
{
    let s = latency.len();
    let mut sum: u128 = 0;
    let mut i: usize = 0;
    while i < s
        invariant
            s == latency@.len(),
            i <= s,
            sum == total_nanos(latency@.take(i as int)),
            total_nanos(latency@) <= MAX_DURATION_NANOS,
        decreases s - i,
    {
        proof {
            assert(latency@.take(i + 1).drop_last() =~= latency@.take(i as int));
            lemma_total_prefix(latency@, i + 1);
        }
        sum = sum + latency[i];
        i = i + 1;
    }
    proof {
        assert(latency@.take(s as int) =~= latency@);
    }
    (sum, s)
}

/// Taking one latency out of a sequence takes its value off the total.
proof fn lemma_total_remove(s: Seq<u128>, j: int)
    requires
        0 <= j < s.len(),
    ensures
        total_nanos(s) == total_nanos(s.remove(j)) + s[j],
    decreases s.len(),
{
    if j == s.len() - 1 {
        assert(s.remove(j) =~= s.drop_last());
    } else {
        lemma_total_remove(s.drop_last(), j);
        assert(s.remove(j).drop_last() =~= s.drop_last().remove(j));
        assert(s.remove(j).last() == s.last());
    }
}

/// The total, and so the mean, does not depend on the order of the
/// latencies: two sequences holding the same latencies, each as often, have
/// the same total (and, being as long, the same mean).
pub proof fn lemma_total_order_independent(a: Seq<u128>, b: Seq<u128>)
    requires
        a.to_multiset() == b.to_multiset(),
    ensures
        total_nanos(a) == total_nanos(b),
        a.len() == b.len(),
    decreases a.len(),
{
    broadcast use vstd::seq_lib::group_to_multiset_ensures;
    broadcast use vstd::multiset::group_multiset_axioms;

    vstd::seq_lib::to_multiset_len(a);
    vstd::seq_lib::to_multiset_len(b);
    assert(a.len() == b.len());
    if a.len() > 0 {
        let x = a.last();
        let rest = a.drop_last();
        assert(rest.push(x) =~= a);
        assert(a.to_multiset() =~= rest.to_multiset().insert(x));
        assert(a.to_multiset().count(x) > 0);
        assert(b.contains(x));
        let j = choose|j: int| 0 <= j < b.len() && b[j] == x;
        let b2 = b.remove(j);
        assert(b2.to_multiset() =~= b.to_multiset().remove(x));
        assert(rest.to_multiset() =~= a.to_multiset().remove(x));
        lemma_total_order_independent(rest, b2);
        lemma_total_remove(b, j);
        assert(total_nanos(a) == total_nanos(rest) + x);
    }
}

proof fn lemma_total_bounds(s: Seq<u128>, lo: int, hi: int)
    requires
        forall|i: int| 0 <= i < s.len() ==> lo <= #[trigger] s[i] <= hi,
    ensures
        s.len() * lo <= total_nanos(s) <= s.len() * hi,
    decreases s.len(),
{
    if s.len() > 0 {
        let t = s.drop_last();
        assert forall|i: int| 0 <= i < t.len() implies lo <= #[trigger] t[i] <= hi by {
            assert(t[i] == s[i]);
        }
        lemma_total_bounds(t, lo, hi);
        assert(s.len() * lo == t.len() * lo + lo) by (nonlinear_arith)
            requires
                s.len() == t.len() + 1,
        ;
        assert(s.len() * hi == t.len() * hi + hi) by (nonlinear_arith)
            requires
                s.len() == t.len() + 1,
        ;
    }
}

/// The average lies between the smallest and the largest latency: if every
/// latency is within `lo..=hi`, the exact mean `total / len` is too, that is
/// `len * lo <= total <= len * hi`.
pub proof fn lemma_average_within(s: Seq<u128>, lo: int, hi: int)
    requires
        s.len() > 0,
        forall|i: int| 0 <= i < s.len() ==> lo <= #[trigger] s[i] <= hi,
    ensures
        s.len() * lo <= total_nanos(s) <= s.len() * hi,
{
    lemma_total_bounds(s, lo, hi);
}

} // verus!
