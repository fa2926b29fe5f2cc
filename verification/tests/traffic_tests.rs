use reflex_bench::{
    echo_reply, mixed_send_size, mock_sizes, time_is_up, ConnAction, Connection, EchoAction,
    EchoSession, IoEvent, ECHO_BUF_LEN, LARGE_MSG, MULTI_BUF_LEN, SMALL_MSG,
};

#[test]
fn echo_reply_follows_the_mock_protocol() {
    assert_eq!(echo_reply(0), EchoAction::Close);
    assert_eq!(echo_reply(24), EchoAction::Reply(1048));
    assert_eq!(echo_reply(1048), EchoAction::Reply(24));
    assert_eq!(echo_reply(1024), EchoAction::Reply(1024));
    assert_eq!(echo_reply(ECHO_BUF_LEN), EchoAction::Reply(ECHO_BUF_LEN));
}

#[test]
fn echo_session_counts_both_directions() {
    let mut s = EchoSession::new();
    assert_eq!(s.on_read(24), EchoAction::Reply(1048));
    s.on_reply_written(1048);
    assert_eq!(s.on_read(100), EchoAction::Reply(100));
    s.on_reply_written(100);
    assert_eq!(s.on_read(0), EchoAction::Close);
    assert_eq!((s.tot_recv, s.tot_resp), (124, 1148));
}

#[test]
fn mock_sizes_read_when_draw_exceeds_ratio() {
    assert_eq!(mock_sizes(60, 50), (SMALL_MSG, LARGE_MSG));
    assert_eq!(mock_sizes(50, 50), (LARGE_MSG, SMALL_MSG));
    assert_eq!(mock_sizes(0, 0), (LARGE_MSG, SMALL_MSG));
    assert_eq!(mock_sizes(99, 100), (LARGE_MSG, SMALL_MSG));
}

#[test]
fn mixed_send_size_switches_to_small() {
    assert_eq!(mixed_send_size(4096, 80, 70), 24);
    assert_eq!(mixed_send_size(4096, 70, 70), 4096);
    assert_eq!(mixed_send_size(24, 0, 70), 24);
}

#[test]
fn time_is_up_after_the_whole_duration() {
    assert!(!time_is_up(10_000_000_000, 10));
    assert!(time_is_up(10_000_000_001, 10));
    assert!(!time_is_up(0, 0));
    assert!(time_is_up(1, 0));
    assert!(!time_is_up(u64::MAX as u128 * 1_000_000_000, u64::MAX));
}

#[test]
fn single_connection_counts_only_after_warmup() {
    let mut c = Connection::new_single(1024, 100);
    assert_eq!(c.begin_round(false), (1024, 1024));
    c.record_write();
    c.record_read(1024, 500);
    assert!(!c.measuring());
    assert_eq!(c.counts().send, 0);
    assert_eq!(c.begin_round(true), (1024, 1024));
    assert!(c.measuring());
    c.record_write();
    c.record_read(1024, 700);
    // Once measuring, it stays so.
    assert_eq!(c.begin_round(false), (1024, 1024));
    assert!(c.measuring());
    c.record_write();
    c.record_read(1024, 900);
    let (counts, latency) = c.into_parts();
    assert_eq!((counts.send, counts.recv, counts.send_bytes, counts.recv_bytes), (2, 2, 2048, 2048));
    assert_eq!(latency, vec![700, 900]);
}

#[test]
fn single_connection_in_mock_mode_mixes_reads_and_writes() {
    let mut c = Connection::new_single(24, 50);
    let mut reads = 0;
    let mut writes = 0;
    for _ in 0..1000 {
        let (s, r) = c.begin_round(true);
        // The mock server answers each request with what the client waits for.
        assert_eq!(echo_reply(s), EchoAction::Reply(r));
        match (s, r) {
            (24, 1048) => reads += 1,
            (1048, 24) => writes += 1,
            other => panic!("unexpected sizes {:?}", other),
        }
        c.record_write();
        c.record_read(r, 1);
    }
    assert!(reads > 0 && writes > 0);
    let (counts, latency) = c.into_parts();
    assert_eq!(counts.send, 1000);
    assert_eq!(counts.send_bytes, reads * 24 + writes * 1048);
    assert_eq!(counts.recv_bytes, reads * 1048 + writes * 24);
    assert_eq!(latency.len(), 1000);
}

#[test]
fn single_connection_with_full_ratio_only_writes() {
    let mut c = Connection::new_single(1048, 100);
    for _ in 0..200 {
        assert_eq!(c.begin_round(true), (LARGE_MSG, SMALL_MSG));
        c.record_write();
        c.record_read(SMALL_MSG, 3);
    }
}

#[test]
fn multi_connection_measures_from_start_and_sticks_to_small() {
    let mut c = Connection::new_multi(4096, 100);
    assert!(c.measuring());
    for _ in 0..50 {
        assert_eq!(c.begin_round(false), (4096, MULTI_BUF_LEN));
        c.record_write();
        c.record_read(4096, 11);
    }
    let mut d = Connection::new_multi(4096, 0);
    let mut small = false;
    for _ in 0..1000 {
        let (s, r) = d.begin_round(false);
        assert_eq!(r, MULTI_BUF_LEN);
        if small {
            assert_eq!(s, 24);
        }
        small = s == 24;
        d.record_write();
    }
    assert!(small);
    let (counts, latency) = d.into_parts();
    assert_eq!((counts.send, counts.recv), (1000, 0));
    assert!(latency.is_empty());
}

#[test]
fn io_failures_stop_a_single_connection() {
    let c = Connection::new_single(1024, 100);
    assert_eq!(c.on_io(IoEvent::WriteFailed, 10), ConnAction::Stop);
    assert_eq!(c.on_io(IoEvent::ReadFailed { would_block: false }, 10), ConnAction::Stop);
    assert_eq!(c.on_io(IoEvent::ReadFailed { would_block: true }, 10), ConnAction::Stop);
    assert_eq!(c.on_io(IoEvent::ReadDone { elapsed_nanos: 10_000_000_000 }, 10), ConnAction::NextRound);
    assert_eq!(c.on_io(IoEvent::ReadDone { elapsed_nanos: 10_000_000_001 }, 10), ConnAction::Stop);
}

#[test]
fn multi_connection_retries_when_the_read_would_block() {
    let c = Connection::new_multi(4096, 100);
    assert_eq!(c.on_io(IoEvent::WriteFailed, 10), ConnAction::Stop);
    assert_eq!(c.on_io(IoEvent::ReadFailed { would_block: false }, 10), ConnAction::Stop);
    // Retried without looking at the clock, even past the deadline.
    assert_eq!(c.on_io(IoEvent::ReadFailed { would_block: true }, 0), ConnAction::NextRound);
    assert_eq!(c.on_io(IoEvent::ReadDone { elapsed_nanos: 1 }, 0), ConnAction::Stop);
}

#[test]
fn multi_connection_longer_than_its_buffer_can_switch_to_small() {
    let mut c = Connection::new_multi(100_000, 0);
    let mut sizes = Vec::new();
    for _ in 0..1000 {
        sizes.push(c.begin_round(false).0);
    }
    assert!(sizes.iter().all(|s| *s == 100_000 || *s == 24));
    assert_eq!(*sizes.last().unwrap(), 24);
}
