//! Verified core of a disaggregated-storage benchmark client and its mock
//! echo server: traffic counters, latency statistics, the per-connection
//! load generator and the mock server's reply rule.
mod echo;
mod load;
mod report;
mod stat;

pub use echo::{echo_reply, echo_reply_spec, reply_len, EchoAction, EchoSession, ECHO_BUF_LEN, LARGE_MSG, SMALL_MSG};
pub use load::{is_mock_length, lemma_mock_round_moves_one_of_each, lemma_mock_round_read_iff_draw_exceeds_ratio, lemma_multi_round_sizes, lemma_single_round_sizes, lemma_server_answers_single, mixed_send_size, mixed_send_size_spec, mock_sizes, mock_sizes_spec, time_is_up, ConnAction, Connection, ConnectionView, IoEvent, PERCENT, MULTI_BUF_LEN, SINGLE_BUF_LEN};
pub use report::{lemma_report_reads_sorted_latencies, lemma_percentile_monotone, lemma_percentile_is_sample, lemma_percentiles_ordered, lemma_report_order_independent, micros_u32, nanos_le, report_percentile, report_spec, sorted_nanos, summarize};
pub use stat::{average, bandwidth_mbps, can_merge, is_zero, lemma_average_within, lemma_bandwidth_single_division, lemma_merge_laws, lemma_total_order_independent, merged, percentile, percentile_index, total_nanos, Args, Count, Perf, MAX_DURATION_NANOS};
