use reflex_bench::{average, bandwidth_mbps, percentile, summarize, Args, Count, Perf};
use std::time::Duration;

fn count(send: u64, recv: u64, send_bytes: u64, recv_bytes: u64) -> Count {
    Count { send, recv, send_bytes, recv_bytes }
}

fn same_count(a: &Count, b: &Count) -> bool {
    a.send == b.send && a.recv == b.recv && a.send_bytes == b.send_bytes && a.recv_bytes == b.recv_bytes
}

fn perf_fields(p: &Perf) -> (u64, u32, u32, u32, u32) {
    (p.iops, p.p10, p.p50, p.p95, p.p99)
}

#[test]
fn count_default_is_zero() {
    let c = Count::default();
    assert!(same_count(&c, &count(0, 0, 0, 0)));
}

#[test]
fn args_default_has_full_write_ratio() {
    let a = Args::default();
    assert_eq!(a.addr, "");
    assert_eq!(a.duration, 0);
    assert_eq!(a.number, 0);
    assert_eq!(a.length, 0);
    assert_eq!(a.rw_ratio, 100);
}

#[test]
fn perf_default_is_zero() {
    assert_eq!(perf_fields(&Perf::default()), (0, 0, 0, 0, 0));
}

#[test]
fn percentile_reads_len_times_n_over_100() {
    let v: Vec<u128> = (1..=10).map(|i| i * 10).collect();
    assert_eq!(percentile(0, &v), 10);
    assert_eq!(percentile(10, &v), 20);
    assert_eq!(percentile(50, &v), 60);
    assert_eq!(percentile(95, &v), 100);
    assert_eq!(percentile(99, &v), 100);
    // 7 * 50 / 100 == 3
    let w: Vec<u128> = vec![1, 2, 3, 4, 5, 6, 7];
    assert_eq!(percentile(50, &w), 4);
}

#[test]
fn percentile_of_durations() {
    let v = vec![Duration::from_micros(5), Duration::from_micros(7), Duration::from_micros(9)];
    assert_eq!(percentile(50, &v), Duration::from_micros(7));
    assert_eq!(percentile(10, &v), Duration::from_micros(5));
}

#[test]
fn average_is_the_exact_total_over_the_count() {
    assert_eq!(average(&[1, 2, 3, 4]), (10, 4));
    assert_eq!(average(&[1, 2, 2]), (5, 3));
    assert_eq!(average(&[7]), (7, 1));
    assert_eq!(average(&[u64::MAX as u128, u64::MAX as u128]), (2 * u64::MAX as u128, 2));
}

#[test]
fn average_rounds_like_the_duration_mean() {
    // The caller turns the exact fraction into a Duration through f64.
    let d = [Duration::from_nanos(1), Duration::from_nanos(2), Duration::from_nanos(2)];
    let nanos: Vec<u128> = d.iter().map(|x| x.as_nanos()).collect();
    let (total, count) = average(&nanos);
    let sum: Duration = d.iter().sum();
    assert_eq!(total, sum.as_nanos());
    let mean = Duration::from_secs_f64(Duration::from_nanos(total as u64).as_secs_f64() / count as f64);
    assert_eq!(mean, Duration::from_secs_f64(sum.as_secs_f64() / d.len() as f64));
}

#[test]
fn average_lies_between_min_and_max() {
    let v: Vec<u128> = vec![900, 15, 3_000, 77, 42];
    let (total, count) = average(&v);
    let n = count as u128;
    assert!(*v.iter().min().unwrap() * n <= total && total <= *v.iter().max().unwrap() * n);
    assert_eq!((total, count), (4034, 5));
}

#[test]
fn merge_adds_field_by_field() {
    let mut a = count(1, 2, 300, 400);
    a.merge(&count(10, 20, 3, 4));
    assert!(same_count(&a, &count(11, 22, 303, 404)));
}

#[test]
fn merge_with_nothing_changes_nothing() {
    let mut a = count(5, 4, 3, 2);
    a.merge(&Count::default());
    assert!(same_count(&a, &count(5, 4, 3, 2)));
}

#[test]
fn merge_order_does_not_matter() {
    let (x, y, z) = (count(1, 1, 10, 10), count(2, 0, 20, 0), count(0, 3, 0, 30));
    let mut a = Count::default();
    a.merge(&x);
    a.merge(&y);
    a.merge(&z);
    let mut b = Count::default();
    b.merge(&z);
    b.merge(&x);
    b.merge(&y);
    assert!(same_count(&a, &b));
    assert!(same_count(&a, &count(3, 4, 30, 40)));
}

#[test]
fn bandwidth_is_bytes_per_second_in_mebibits() {
    assert_eq!(bandwidth_mbps(1 << 30, 1), 8192);
    assert_eq!(bandwidth_mbps(131_072 * 10 * 3 + 5, 10), 3);
    assert_eq!(bandwidth_mbps(131_071, 1), 0);
    assert_eq!(bandwidth_mbps(u64::MAX, 7), u64::MAX / 7 / 1024 / 128);
    assert_eq!(bandwidth_mbps(u64::MAX, 7), u64::MAX / (7 * 131_072));
}

#[test]
fn summarize_sorts_before_reading_percentiles() {
    // 100 latencies from 100 us down to 1 us.
    let latency: Vec<u128> = (0..100u128).map(|i| (100 - i) * 1_000).collect();
    let p = summarize(&count(1_000, 100, 0, 0), 10, latency);
    assert_eq!(perf_fields(&p), (100, 11, 51, 96, 100));
}

#[test]
fn summarize_reports_microseconds_cut_to_32_bits() {
    let big = ((1u128 << 32) + 5) * 1_000 + 999;
    let p = summarize(&count(7, 1, 0, 0), 2, vec![big]);
    assert_eq!(perf_fields(&p), (3, 5, 5, 5, 5));
}

#[test]
fn summarize_ignores_arrival_order() {
    let a: Vec<u128> = vec![5_000, 1_000, 9_000, 3_000, 7_000, 2_000];
    let mut b = a.clone();
    b.reverse();
    let c = count(60, 6, 0, 0);
    let pa = summarize(&c, 3, a);
    let pb = summarize(&c, 3, b);
    assert_eq!(perf_fields(&pa), perf_fields(&pb));
    assert_eq!(perf_fields(&pa), (20, 1, 5, 9, 9));
}

#[test]
fn percentile_never_decreases_on_sorted_input() {
    let v: Vec<u128> = (0..37u128).map(|i| i * i).collect();
    let mut prev = 0;
    for n in 0..100usize {
        let p = percentile(n, &v);
        assert!(prev <= p);
        prev = p;
    }
}

#[test]
fn summarize_percentiles_never_decrease() {
    let latency: Vec<u128> = (0..257u128).map(|i| (i * 7919) % 1_000_003).collect();
    let p = summarize(&count(1, 1, 0, 0), 1, latency);
    assert!(p.p10 <= p.p50 && p.p50 <= p.p95 && p.p95 <= p.p99);
}

#[test]
fn average_does_not_depend_on_order() {
    let a: Vec<u128> = vec![5, 17, 3, 900, 41, 41];
    let mut b = a.clone();
    b.sort();
    b.rotate_left(2);
    assert_eq!(average(&a), average(&b));
    assert_eq!(average(&a), (1007, 6));
}
