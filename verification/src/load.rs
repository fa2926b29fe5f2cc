//! The decisions of one load-generating connection.
//!
//! A connection runs in rounds: choose the sizes of the next request and
//! reply, write the request, read the reply, and account for both. The
//! network I/O and the clock are the caller's; the choices and the
//! bookkeeping are here.
//!
//! A single-target connection (`new_single`) sends requests of the
//! configured length and waits for a reply of the same length. When that
//! length is one of the mock server's message sizes, it instead mixes reads
//! and writes: each round it draws a number below 100 and sends a small read
//! request (expecting the large data) when the draw exceeds the read/write
//! ratio, a large write (expecting the small acknowledgement) otherwise. It
//! counts only once the warm-up is over.
//!
//! A multi-target connection (`new_multi`) counts from the start, reads
//! whatever arrives into its whole buffer, and switches to small requests for
//! good the first time a draw exceeds the ratio.
use rand::Rng;
use vstd::prelude::*;
use crate::echo::{echo_reply_spec, reply_len, EchoAction, LARGE_MSG, SMALL_MSG};
use crate::stat::Count;

verus! {

/// Request buffer of a single-target connection.
pub const SINGLE_BUF_LEN: usize = 8192;

/// Request and reply buffer of a multi-target connection.
pub const MULTI_BUF_LEN: usize = 16384;

/// The scale the read/write ratio is given on: draws are below it.
pub const PERCENT: u32 = 100;

/// A uniformly random number in `0..bound`, from `rand::thread_rng()` and
/// `Rng::gen_range(0..bound)`. Claimed: the number is below `bound`. Which
/// number comes back is chance. `gen_range` panics on an empty range, so
/// `bound` is positive; `ThreadRng` panics otherwise only if the operating
/// system cannot seed it.
#[verifier::external_body]
fn draw_below(bound: u32) -> (r: u32)
    requires
        bound > 0,
    ensures
        r < bound,
{
    rand::thread_rng().gen_range(0..bound)
}

/// Lengths that make a single-target connection mix reads and writes.
pub open spec fn is_mock_length(length: usize) -> bool {
    length == SMALL_MSG || length == LARGE_MSG
}

/// Request and reply sizes of a mixed round with draw `draw`.
pub open spec fn mock_sizes_spec(draw: u32, rw_ratio: u32) -> (usize, usize) {
    if draw > rw_ratio {
        (SMALL_MSG, LARGE_MSG)
    } else {
        (LARGE_MSG, SMALL_MSG)
    }
}

/// Decides the sizes of a mixed round: a read (small request, large reply)
/// when the draw exceeds the ratio, a write otherwise.
pub fn mock_sizes(draw: u32, rw_ratio: u32) -> (r: (usize, usize))
    ensures
        r == mock_sizes_spec(draw, rw_ratio),
        (r == (SMALL_MSG, LARGE_MSG)) == (draw > rw_ratio),
        (r == (LARGE_MSG, SMALL_MSG)) == (draw <= rw_ratio),
{
    if draw > rw_ratio {
        (SMALL_MSG, LARGE_MSG)
    } else {
        (LARGE_MSG, SMALL_MSG)
    }
}

/// Request size of a multi-target round with draw `draw`.
pub open spec fn mixed_send_size_spec(current: usize, draw: u32, rw_ratio: u32) -> usize {
    if draw > rw_ratio {
        SMALL_MSG
    } else {
        current
    }
}

/// Decides the request size of a multi-target round: small once a draw
/// exceeds the ratio, the previous size otherwise.
pub fn mixed_send_size(current: usize, draw: u32, rw_ratio: u32) -> (r: usize)
    ensures
        r == mixed_send_size_spec(current, draw, rw_ratio),
        draw > rw_ratio ==> r == SMALL_MSG,
        draw <= rw_ratio ==> r == current,
{
    if draw > rw_ratio {
        SMALL_MSG
    } else {
        current
    }
}

/// Whether a connection that has run for `elapsed_nanos` has passed a run of
/// `duration_secs` seconds.
pub fn time_is_up(elapsed_nanos: u128, duration_secs: u64) -> (r: bool)
    ensures
        r == (elapsed_nanos > duration_secs * 1_000_000_000),
{
    elapsed_nanos > (duration_secs as u128) * 1_000_000_000
}

/// How the I/O of a round ended.
#[derive(Debug, Clone, Copy, PartialEq, Eq, Structural)]
pub enum IoEvent {
    /// Writing the request failed.
    WriteFailed,
    /// Reading the reply failed; `would_block` when the error was
    /// `WouldBlock`.
    ReadFailed { would_block: bool },
    /// The reply was read; the connection has run for `elapsed_nanos`.
    ReadDone { elapsed_nanos: u128 },
}

/// What a connection does after a round.
#[derive(Debug, Clone, Copy, PartialEq, Eq, Structural)]
pub enum ConnAction {
    /// Stop and report what was measured.
    Stop,
    /// Start the next round.
    NextRound,
}

/// The state of a connection, as contracts see it.
pub struct ConnectionView {
    pub multi: bool,
    pub length: usize,
    pub rw_ratio: u32,
    pub mock_mode: bool,
    pub measure: bool,
    pub to_send: usize,
    pub to_recv: usize,
    pub awaiting_reply: bool,
    pub counts: Count,
    pub latency: Seq<u128>,
}

impl ConnectionView {
    /// What holds of every connection between two calls.
    pub open spec fn consistent(self) -> bool {
        &&& self.latency.len() == self.counts.recv
        &&& self.counts.recv <= self.counts.send
        &&& (self.awaiting_reply && self.measure ==> self.counts.recv < self.counts.send)
        &&& if self.multi {
            &&& self.measure
            &&& !self.mock_mode
            &&& (self.to_send == self.length || self.to_send == SMALL_MSG)
            &&& self.to_recv == MULTI_BUF_LEN
        } else {
            &&& self.mock_mode == is_mock_length(self.length)
            &&& if self.mock_mode {
                ||| (self.to_send, self.to_recv) == (self.length, self.length)
                ||| (self.to_send, self.to_recv) == (SMALL_MSG, LARGE_MSG)
                ||| (self.to_send, self.to_recv) == (LARGE_MSG, SMALL_MSG)
            } else {
                self.to_send == self.length && self.to_recv == self.length
            }
        }
    }

    /// The sizes a round starting from this state uses when the draw is
    /// `draw`.
    pub open spec fn round_sizes(self, draw: u32) -> (usize, usize) {
        if self.multi {
            (mixed_send_size_spec(self.to_send, draw, self.rw_ratio), MULTI_BUF_LEN)
        } else if self.mock_mode {
            mock_sizes_spec(draw, self.rw_ratio)
        } else {
            (self.to_send, self.to_recv)
        }
    }
}

/// One load-generating connection.
pub struct Connection {
    multi: bool,
    length: usize,
    rw_ratio: u32,
    mock_mode: bool,
    measure: bool,
    to_send: usize,
    to_recv: usize,
    awaiting_reply: bool,
    counts: Count,
    latency: Vec<u128>,
}

impl View for Connection {
    type V = ConnectionView;

    closed spec fn view(&self) -> ConnectionView {
        ConnectionView {
            multi: self.multi,
            length: self.length,
            rw_ratio: self.rw_ratio,
            mock_mode: self.mock_mode,
            measure: self.measure,
            to_send: self.to_send,
            to_recv: self.to_recv,
            awaiting_reply: self.awaiting_reply,
            counts: self.counts,
            latency: self.latency@,
        }
    }
}

impl Connection {
    /// A single-target connection sending `length`-byte requests. (Its
    /// request buffer holds `SINGLE_BUF_LEN` bytes; writing a longer request
    /// is the caller's slice panic.)
    pub fn new_single(length: usize, rw_ratio: u32) -> (c: Connection)
        ensures
            c@.consistent(),
            !c@.multi,
            c@.length == length,
            c@.rw_ratio == rw_ratio,
            c@.mock_mode == is_mock_length(length),
            c@.mock_mode == (length == SMALL_MSG || length == LARGE_MSG),
            !c@.measure,
            c@.to_send == length,
            c@.to_recv == length,
            !c@.awaiting_reply,
            c@.counts == (Count { send: 0, recv: 0, send_bytes: 0, recv_bytes: 0 }),
            c@.latency == Seq::<u128>::empty(),
    {
        let mock_mode = length == SMALL_MSG || length == LARGE_MSG;
        Connection {
            multi: false,
            length,
            rw_ratio,
            mock_mode,
            measure: false,
            to_send: length,
            to_recv: length,
            awaiting_reply: false,
            counts: Count { send: 0, recv: 0, send_bytes: 0, recv_bytes: 0 },
            latency: Vec::new(),
        }
    }

    /// A multi-target connection sending `length`-byte requests, counting
    /// from the start. (Its buffers hold `MULTI_BUF_LEN` bytes; writing a
    /// longer request is the caller's slice panic.)
    pub fn new_multi(length: usize, rw_ratio: u32) -> (c: Connection)
        ensures
            c@.consistent(),
            c@.multi,
            c@.length == length,
            c@.rw_ratio == rw_ratio,
            !c@.mock_mode,
            c@.measure,
            c@.to_send == length,
            c@.to_recv == MULTI_BUF_LEN,
            !c@.awaiting_reply,
            c@.counts == (Count { send: 0, recv: 0, send_bytes: 0, recv_bytes: 0 }),
            c@.latency == Seq::<u128>::empty(),
    {
        Connection {
            multi: true,
            length,
            rw_ratio,
            mock_mode: false,
            measure: true,
            to_send: length,
            to_recv: MULTI_BUF_LEN,
            awaiting_reply: false,
            counts: Count { send: 0, recv: 0, send_bytes: 0, recv_bytes: 0 },
            latency: Vec::new(),
        }
    }

    /// Starts a round: chooses the sizes of the request to write and of the
    /// reply to read (for a multi-target connection, the read buffer), and
    /// starts counting once `past_warmup` says the warm-up is over.
    ///
    /// Mixed and multi-target connections draw a random number below
    /// `PERCENT` for the round (`draw_below`) and decide by it as
    /// `begin_round_with_draw` does; which number comes back is chance, so
    /// the contract says the sizes are those of some draw below `PERCENT`.
    /// A single-target connection whose length is not a mock message size
    /// draws nothing and always uses `(length, length)`.
    pub fn begin_round(&mut self, past_warmup: bool) -> (sizes: (usize, usize))
        requires
            old(self)@.consistent(),
        ensures
            final(self)@.consistent(),
            sizes == (final(self)@.to_send, final(self)@.to_recv),
            exists|draw: u32| draw < PERCENT && sizes == #[trigger] old(self)@.round_sizes(draw),
            !old(self)@.multi && old(self)@.length != SMALL_MSG && old(self)@.length != LARGE_MSG
                ==> sizes == (old(self)@.length, old(self)@.length),
            !old(self)@.multi && (old(self)@.length == SMALL_MSG || old(self)@.length == LARGE_MSG)
                ==> (sizes == (SMALL_MSG, LARGE_MSG) || sizes == (LARGE_MSG, SMALL_MSG)),
            old(self)@.multi ==> sizes.1 == MULTI_BUF_LEN && (sizes.0 == SMALL_MSG || sizes.0
                == old(self)@.to_send),
            old(self)@.multi && old(self)@.to_send == SMALL_MSG ==> sizes.0 == SMALL_MSG,
            final(self)@.measure == (old(self)@.measure || past_warmup),
            !final(self)@.awaiting_reply,
            final(self)@.multi == old(self)@.multi,
            final(self)@.length == old(self)@.length,
            final(self)@.rw_ratio == old(self)@.rw_ratio,
            final(self)@.mock_mode == old(self)@.mock_mode,
            final(self)@.counts == old(self)@.counts,
            final(self)@.latency == old(self)@.latency,
    {
        let draw = if self.multi || self.mock_mode {
            draw_below(PERCENT)
        } else {
            0
        };
        self.begin_round_with_draw(past_warmup, draw)
    }

    /// Starts a round whose random number is `draw`: a mixed round is a read
    /// (small request, large reply) exactly when the draw exceeds the ratio
    /// and a write otherwise; a multi-target round switches to small requests
    /// when the draw exceeds the ratio and keeps its request size otherwise;
    /// any other round keeps `(length, length)`.
    pub fn begin_round_with_draw(&mut self, past_warmup: bool, draw: u32) -> (sizes: (usize, usize))
        requires
            old(self)@.consistent(),
            draw < PERCENT,
        ensures
            final(self)@.consistent(),
            sizes == (final(self)@.to_send, final(self)@.to_recv),
            sizes == old(self)@.round_sizes(draw),
            !old(self)@.multi && old(self)@.length != SMALL_MSG && old(self)@.length != LARGE_MSG
                ==> sizes == (old(self)@.length, old(self)@.length),
            !old(self)@.multi && (old(self)@.length == SMALL_MSG || old(self)@.length == LARGE_MSG)
                ==> ((sizes == (SMALL_MSG, LARGE_MSG)) == (draw > old(self)@.rw_ratio) && (sizes == (
                LARGE_MSG,
                SMALL_MSG,
            )) == (draw <= old(self)@.rw_ratio)),
            old(self)@.multi ==> sizes.1 == MULTI_BUF_LEN,
            old(self)@.multi && draw > old(self)@.rw_ratio ==> sizes.0 == SMALL_MSG,
            old(self)@.multi && draw <= old(self)@.rw_ratio ==> sizes.0 == old(self)@.to_send,
            final(self)@.measure == (old(self)@.measure || past_warmup),
            !final(self)@.awaiting_reply,
            final(self)@.multi == old(self)@.multi,
            final(self)@.length == old(self)@.length,
            final(self)@.rw_ratio == old(self)@.rw_ratio,
            final(self)@.mock_mode == old(self)@.mock_mode,
            final(self)@.counts == old(self)@.counts,
            final(self)@.latency == old(self)@.latency,
    {
        if self.multi {
            self.to_send = mixed_send_size(self.to_send, draw, self.rw_ratio);
        } else if self.mock_mode {
            let (s, r) = mock_sizes(draw, self.rw_ratio);
            self.to_send = s;
            self.to_recv = r;
        }
        if !self.measure && past_warmup {
            self.measure = true;
        }
        self.awaiting_reply = false;
        (self.to_send, self.to_recv)
    }

    /// Accounts for a request written in full: counted when measuring.
    pub fn record_write(&mut self)
        requires
            old(self)@.consistent(),
            !old(self)@.awaiting_reply,
            old(self)@.measure ==> old(self)@.counts.send < u64::MAX,
            old(self)@.measure ==> old(self)@.counts.send_bytes + old(self)@.to_send <= u64::MAX,
        ensures
            final(self)@.consistent(),
            final(self)@.awaiting_reply,
            final(self)@.counts == (if old(self)@.measure {
                Count {
                    send: (old(self)@.counts.send + 1) as u64,
                    send_bytes: (old(self)@.counts.send_bytes + old(self)@.to_send) as u64,
                    ..old(self)@.counts
                }
            } else {
                old(self)@.counts
            }),
            final(self)@.latency == old(self)@.latency,
            final(self)@ == (ConnectionView {
                awaiting_reply: true,
                counts: final(self)@.counts,
                ..old(self)@
            }),
    {
        if self.measure {
            self.counts.send = self.counts.send + 1;
            self.counts.send_bytes = self.counts.send_bytes + self.to_send as u64;
        }
        self.awaiting_reply = true;
    }

    /// Accounts for a reply of `n` bytes that came `rtt_nanos` after the
    /// round started: counted, and the latency kept, when measuring.
    pub fn record_read(&mut self, n: usize, rtt_nanos: u128)
        requires
            old(self)@.consistent(),
            old(self)@.awaiting_reply,
            old(self)@.measure ==> old(self)@.counts.recv_bytes + n <= u64::MAX,
        ensures
            final(self)@.consistent(),
            !final(self)@.awaiting_reply,
            final(self)@.counts == (if old(self)@.measure {
                Count {
                    recv: (old(self)@.counts.recv + 1) as u64,
                    recv_bytes: (old(self)@.counts.recv_bytes + n) as u64,
                    ..old(self)@.counts
                }
            } else {
                old(self)@.counts
            }),
            final(self)@.latency == (if old(self)@.measure {
                old(self)@.latency.push(rtt_nanos)
            } else {
                old(self)@.latency
            }),
            final(self)@ == (ConnectionView {
                awaiting_reply: false,
                counts: final(self)@.counts,
                latency: final(self)@.latency,
                ..old(self)@
            }),
    {
        if self.measure {
            self.counts.recv = self.counts.recv + 1;
            self.counts.recv_bytes = self.counts.recv_bytes + n as u64;
            self.latency.push(rtt_nanos);
        }
        self.awaiting_reply = false;
    }

    /// Decides what follows the I/O of a round in a run of `duration_secs`
    /// seconds: a failed write or read stops the connection, except that a
    /// multi-target connection retries at once, without looking at the
    /// clock, when the read would block; after a reply it stops once the
    /// run's time is up.
    pub fn on_io(&self, ev: IoEvent, duration_secs: u64) -> (a: ConnAction)
        ensures
            a == (match ev {
                IoEvent::WriteFailed => ConnAction::Stop,
                IoEvent::ReadFailed { would_block } => if would_block && self@.multi {
                    ConnAction::NextRound
                } else {
                    ConnAction::Stop
                },
                IoEvent::ReadDone { elapsed_nanos } => if elapsed_nanos > duration_secs
                    * 1_000_000_000 {
                    ConnAction::Stop
                } else {
                    ConnAction::NextRound
                },
            }),
    {
        match ev {
            IoEvent::WriteFailed => ConnAction::Stop,
            IoEvent::ReadFailed { would_block } => {
                if would_block && self.multi {
                    ConnAction::NextRound
                } else {
                    ConnAction::Stop
                }
            },
            IoEvent::ReadDone { elapsed_nanos } => {
                if time_is_up(elapsed_nanos, duration_secs) {
                    ConnAction::Stop
                } else {
                    ConnAction::NextRound
                }
            },
        }
    }

    /// The counters so far.
    pub fn counts(&self) -> (r: &Count)
        ensures
            *r == self@.counts,
    {
        &self.counts
    }

    /// Whether the connection is counting.
    pub fn measuring(&self) -> (r: bool)
        ensures
            r == self@.measure,
    {
        self.measure
    }

    /// What the connection measured: its counters and one latency per
    /// counted reply.
    pub fn into_parts(self) -> (r: (Count, Vec<u128>))
        requires
            self@.consistent(),
        ensures
            r.0 == self@.counts,
            r.1@ == self@.latency,
            r.1@.len() == r.0.recv,
            r.0.recv <= r.0.send,
    {
        (self.counts, self.latency)
    }
}

/// The mock server answers every request of a single-target connection with
/// exactly the number of bytes the connection waits for, whatever the draw.
pub proof fn lemma_server_answers_single(c: ConnectionView, draw: u32)
    requires
        c.consistent(),
        !c.multi,
        c.length > 0,
    ensures
        c.round_sizes(draw).0 > 0,
        echo_reply_spec(c.round_sizes(draw).0) == EchoAction::Reply(c.round_sizes(draw).1),
{
}

/// A mixed round is a read (small request, large reply) exactly when the
/// draw exceeds the read/write ratio, and a write (large request, small
/// acknowledgement) exactly when it does not.
pub proof fn lemma_mock_round_read_iff_draw_exceeds_ratio(draw: u32, rw_ratio: u32)
    ensures
        (mock_sizes_spec(draw, rw_ratio) == (SMALL_MSG, LARGE_MSG)) == (draw > rw_ratio),
        (mock_sizes_spec(draw, rw_ratio) == (LARGE_MSG, SMALL_MSG)) == (draw <= rw_ratio),
{
}

/// A single-target connection mixes reads and writes exactly when its
/// length is 24 or 1048; with any other length every round sends `length`
/// bytes and waits for `length` bytes back, whatever the draw.
pub proof fn lemma_single_round_sizes(c: ConnectionView, draw: u32)
    requires
        c.consistent(),
        !c.multi,
    ensures
        c.mock_mode == (c.length == 24 || c.length == 1048),
        c.length != 24 && c.length != 1048 ==> c.round_sizes(draw) == (c.length, c.length),
        c.length == 24 || c.length == 1048 ==> ((c.round_sizes(draw) == (24usize, 1048usize)) == (
        draw > c.rw_ratio) && (c.round_sizes(draw) == (1048usize, 24usize)) == (draw
            <= c.rw_ratio)),
{
}

/// A multi-target round reads into the whole buffer; its request becomes
/// small when the draw exceeds the ratio, keeps its size otherwise, and
/// once small stays small.
pub proof fn lemma_multi_round_sizes(c: ConnectionView, draw: u32)
    requires
        c.consistent(),
        c.multi,
    ensures
        c.round_sizes(draw).1 == 16384,
        draw > c.rw_ratio ==> c.round_sizes(draw).0 == 24,
        draw <= c.rw_ratio ==> c.round_sizes(draw).0 == c.to_send,
        c.to_send == 24 ==> c.round_sizes(draw).0 == 24,
{
}

/// In mixed mode every round moves one small and one large message.
pub proof fn lemma_mock_round_moves_one_of_each(draw: u32, rw_ratio: u32)
    ensures
        mock_sizes_spec(draw, rw_ratio).0 + mock_sizes_spec(draw, rw_ratio).1 == SMALL_MSG + LARGE_MSG,
        reply_len(mock_sizes_spec(draw, rw_ratio).0) == mock_sizes_spec(draw, rw_ratio).1,
{
}

} // verus!
