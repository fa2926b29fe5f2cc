# reflex_bench

A benchmark client for disaggregated storage, with a mock storage server,
whose decisions and bookkeeping are verified with Verus.

- `src/stat.rs`: traffic counters (`Count`), run parameters (`Args`), the
  report (`Perf`), percentile and average of latencies, bandwidth.
- `src/report.rs`: sorting the measured latencies and reading the report off.
- `src/load.rs`: one load-generating connection as a state machine: request
  and reply sizes per round, warm-up, counting, latency samples.
- `src/echo.rs`: the mock server's reply rule and per-connection totals.
- `app/`: the network, the clock, the command line and the Lambda handler.

Latencies are whole nanoseconds (`u128`).
