//! The mock storage server's reply rule and its per-connection totals.
//!
//! The mock server stands in for a storage node: a small request (a read
//! command) is answered with a large reply (the data), a large request (a
//! write) with a small acknowledgement, and anything else is echoed back.
use vstd::prelude::*;

verus! {

/// Size of the server's receive buffer.
pub const ECHO_BUF_LEN: usize = 8096;

/// Size of a small message: a read request, or a write acknowledgement.
pub const SMALL_MSG: usize = 24;

/// Size of a large message: a write request, or the data of a read.
pub const LARGE_MSG: usize = 1048;

/// What the server does after a read from a connection.
#[derive(Debug, Clone, Copy, PartialEq, Eq, Structural)]
pub enum EchoAction {
    /// The peer closed the connection.
    Close,
    /// Write back this many bytes of the buffer.
    Reply(usize),
}

/// The number of bytes the server sends back for a request of `n` bytes.
pub open spec fn reply_len(n: usize) -> usize {
    if n == SMALL_MSG {
        LARGE_MSG
    } else if n == LARGE_MSG {
        SMALL_MSG
    } else {
        n
    }
}

/// The server's answer to a read of `n` bytes: a read of nothing means the
/// peer is gone.
pub open spec fn echo_reply_spec(n: usize) -> EchoAction {
    if n == 0 {
        EchoAction::Close
    } else {
        EchoAction::Reply(reply_len(n))
    }
}

/// Decides the answer to a read of `n` bytes.
pub fn echo_reply(n: usize) -> (a: EchoAction)
    ensures
        a == echo_reply_spec(n),
        n <= ECHO_BUF_LEN ==> (a matches EchoAction::Reply(len) ==> len <= ECHO_BUF_LEN),
{
    if n == 0 {
        EchoAction::Close
    } else if n == SMALL_MSG {
        EchoAction::Reply(LARGE_MSG)
    } else if n == LARGE_MSG {
        EchoAction::Reply(SMALL_MSG)
    } else {
        EchoAction::Reply(n)
    }
}

/// Bytes received and bytes answered on one server connection.
#[derive(Debug)]
pub struct EchoSession {
    pub tot_recv: u64,
    pub tot_resp: u64,
}

impl EchoSession {
    /// A connection that has moved nothing yet.
    pub fn new() -> (s: EchoSession)
        ensures
            s.tot_recv == 0,
            s.tot_resp == 0,
    {
        EchoSession { tot_recv: 0, tot_resp: 0 }
    }

    /// Accounts for a read of `n` bytes and says what to do about it.
    pub fn on_read(&mut self, n: usize) -> (a: EchoAction)
        requires
            old(self).tot_recv + n <= u64::MAX,
        ensures
            final(self).tot_recv == old(self).tot_recv + n,
            final(self).tot_resp == old(self).tot_resp,
            a == echo_reply_spec(n),
            n <= ECHO_BUF_LEN ==> (a matches EchoAction::Reply(len) ==> len <= ECHO_BUF_LEN),
    {
        self.tot_recv = self.tot_recv + n as u64;
        echo_reply(n)
    }

    /// Accounts for a reply of `len` bytes that was written in full.
    pub fn on_reply_written(&mut self, len: usize)
        requires
            old(self).tot_resp + len <= u64::MAX,
        ensures
            final(self).tot_recv == old(self).tot_recv,
            final(self).tot_resp == old(self).tot_resp + len,
    {
        self.tot_resp = self.tot_resp + len as u64;
    }
}

} // verus!
