//! Decision logic of the server's per-connection handler.
//!
//! The handler services exactly one accepted connection. The surrounding
//! loop performs the blocking reads and writes; each read's outcome is
//! handed to [`ConnectionHandler::on_read`] as a plain event, and the
//! handler decides which acknowledgment byte, if any, to write back and
//! whether the connection is over.

use vstd::prelude::*;
use crate::ack::{ACK_SUCCESS, ACK_FAILURE};
use crate::config::ServerOpts;

verus! {

/// The outcome of one blocking read on the connection: the peer closed
/// its write side (a zero-length read), a message of `n > 0` bytes
/// arrived, or the read failed with an I/O error.
#[derive(Clone, Copy, Debug, PartialEq, Eq, Structural)]
pub enum ReadEvent {
    Closed,
    Received(usize),
    Failed,
}

/// The handler's observable state: still serving reads, terminated by an
/// orderly peer close, or terminated by a read error.
#[derive(Clone, Copy, Debug, PartialEq, Eq, Structural)]
pub enum HandlerStatus {
    Running,
    PeerClosed,
    Errored,
}

/// Serves one accepted connection until the peer closes it or a read
/// fails.
pub struct ConnectionHandler {
    pub ack_enabled: bool,
    pub status: HandlerStatus,
}

/// The byte the handler writes back for a read event, if any: a success
/// acknowledgment for each received message when acknowledgments are
/// enabled, a best-effort failure acknowledgment on a read error, and
/// nothing otherwise.
pub open spec fn reply_spec(ack_enabled: bool, event: ReadEvent) -> Option<u8> {
    match event {
        ReadEvent::Closed => None,
        ReadEvent::Received(_) => if ack_enabled {
            Some(ACK_SUCCESS)
        } else {
            None
        },
        ReadEvent::Failed => Some(ACK_FAILURE),
    }
}

/// The handler's state after a read event: a zero-length read ends it as
/// peer-closed, a read error ends it as errored, and a received message
/// keeps it running.
pub open spec fn status_after(event: ReadEvent) -> HandlerStatus {
    match event {
        ReadEvent::Closed => HandlerStatus::PeerClosed,
        ReadEvent::Received(_) => HandlerStatus::Running,
        ReadEvent::Failed => HandlerStatus::Errored,
    }
}

impl ConnectionHandler {
    /// A handler for a freshly accepted connection, with the server's
    /// acknowledgment setting copied in.
    pub fn new(opts: &ServerOpts) -> (h: ConnectionHandler)
        ensures
            h.ack_enabled == opts.ack,
            h.status == HandlerStatus::Running,
    {
        ConnectionHandler { ack_enabled: opts.ack, status: HandlerStatus::Running }
    }

    /// Whether the handler should attempt another read.
    pub fn is_running(&self) -> (r: bool)
        ensures
            r == (self.status == HandlerStatus::Running),
    {
        matches!(self.status, HandlerStatus::Running)
    }

    /// Decide on one read's outcome: returns the acknowledgment byte to
    /// write back, if any, and records whether the connection is over.
    /// A received message is one read of `n > 0` bytes, whatever its
    /// content.
    pub fn on_read(&mut self, event: ReadEvent) -> (reply: Option<u8>)
        requires
            old(self).status == HandlerStatus::Running,
            event matches ReadEvent::Received(n) ==> n > 0,
        ensures
            reply == reply_spec(old(self).ack_enabled, event),
            final(self).status == status_after(event),
            final(self).ack_enabled == old(self).ack_enabled,
    {
        match event {
            ReadEvent::Closed => {
                self.status = HandlerStatus::PeerClosed;
                None
            },
            ReadEvent::Received(_) => {
                if self.ack_enabled {
                    Some(ACK_SUCCESS)
                } else {
                    None
                }
            },
            ReadEvent::Failed => {
                self.status = HandlerStatus::Errored;
                Some(ACK_FAILURE)
            },
        }
    }
}

/// With acknowledgments enabled, a received message of any positive
/// length draws exactly one reply, the success acknowledgment byte, and
/// the handler keeps serving the connection.
pub proof fn lemma_echo_correctness(n: usize)
    requires
        n > 0,
    ensures
        reply_spec(true, ReadEvent::Received(n)) == Some(ACK_SUCCESS),
        status_after(ReadEvent::Received(n)) == HandlerStatus::Running,
{
}

/// With acknowledgments disabled, the handler never writes a reply byte
/// for any received message, however many arrive, nor on an orderly
/// close.
pub proof fn lemma_no_ack_mode()
    ensures
        forall|n: usize| reply_spec(false, ReadEvent::Received(n)) == None::<u8>,
        reply_spec(false, ReadEvent::Closed) == None::<u8>,
{
}

/// A peer that closes its write side, even after sending nothing, ends
/// the handler without an error and without a reply: the terminal state
/// is an orderly peer close.
pub proof fn lemma_zero_length_close(ack_enabled: bool)
    ensures
        reply_spec(ack_enabled, ReadEvent::Closed) == None::<u8>,
        status_after(ReadEvent::Closed) == HandlerStatus::PeerClosed,
        status_after(ReadEvent::Closed) != HandlerStatus::Errored,
{
}

} // verus!
