//! Decision logic of one client channel.
//!
//! A channel worker owns one connection and sends its share of the
//! message budget: zero-filled messages of a fixed length, one at a time.
//! The surrounding loop performs the blocking writes, reads, and pauses;
//! the worker decides when to stop and turns each send and each
//! acknowledgment outcome into counter updates on its own [`Metrics`].

use vstd::prelude::*;
use crate::ack::{AckStatus, decode_spec};
use crate::metrics::{Metrics, consistent};

verus! {

/// The outcome of the bounded read for one acknowledgment byte: a byte
/// arrived, or the read timed out or failed.
#[derive(Clone, Copy, Debug, PartialEq, Eq, Structural)]
pub enum AckOutcome {
    Byte(u8),
    ReadFailed,
}

/// One client channel's sending state: its share of the message budget,
/// the fixed message length, and the counters it accumulates.
pub struct ChannelWorker {
    pub share: usize,
    pub msg_length: usize,
    pub metrics: Metrics,
}

impl ChannelWorker {
    /// The worker's invariant: attempts never exceed the share, resolved
    /// acknowledgments never exceed attempts, every attempt accounts for
    /// exactly one message's bytes, and the whole share's bytes fit in a
    /// machine word.
    pub open spec fn wf(self) -> bool {
        &&& self.metrics.total <= self.share
        &&& consistent(self.metrics)
        &&& self.metrics.bytes == self.metrics.total * self.msg_length
        &&& self.share * self.msg_length <= usize::MAX
    }

    /// A worker about to send `share` messages of `msg_length` bytes
    /// each, with all counters at zero — also the final state of a
    /// worker whose connection attempt failed and that sends nothing.
    pub fn new(share: usize, msg_length: usize) -> (w: ChannelWorker)
        requires
            share * msg_length <= usize::MAX,
        ensures
            w.share == share,
            w.msg_length == msg_length,
            w.metrics == (Metrics { total: 0, success: 0, failed: 0, bytes: 0 }),
            w.wf(),
    {
        ChannelWorker { share, msg_length, metrics: Metrics::new() }
    }

    /// Whether another message remains to be sent.
    pub fn has_next(&self) -> (r: bool)
        ensures
            r == (self.metrics.total < self.share),
    {
        self.metrics.total < self.share
    }

    /// Record one attempted send: one more message attempted and its
    /// full length counted as attempted bytes, whether or not an
    /// acknowledgment ever resolves it.
    pub fn record_send(&mut self)
        requires
            old(self).wf(),
            old(self).metrics.total < old(self).share,
        ensures
            final(self).wf(),
            final(self).share == old(self).share,
            final(self).msg_length == old(self).msg_length,
            final(self).metrics.total == old(self).metrics.total + 1,
            final(self).metrics.bytes == old(self).metrics.bytes + old(self).msg_length,
            final(self).metrics.success == old(self).metrics.success,
            final(self).metrics.failed == old(self).metrics.failed,
    {
        proof {
            let t = old(self).metrics.total as int;
            let s = old(self).share as int;
            let m = old(self).msg_length as int;
            assert((t + 1) * m <= s * m) by (nonlinear_arith)
                requires
                    t + 1 <= s,
                    m >= 0,
            ;
            assert((t + 1) * m == t * m + m) by (nonlinear_arith);
        }
        self.metrics.total = self.metrics.total + 1;
        self.metrics.bytes = self.metrics.bytes + self.msg_length;
    }

    /// Record the outcome of one acknowledgment cycle for the attempt
    /// just sent: a success byte resolves it as a success, a failure
    /// byte as a failure, and a malformed byte or a failed read leaves
    /// both resolved counters untouched — the attempt stays counted but
    /// unresolved.
    pub fn record_ack(&mut self, outcome: AckOutcome)
        requires
            old(self).wf(),
            old(self).metrics.success + old(self).metrics.failed < old(self).metrics.total,
        ensures
            final(self).wf(),
            final(self).share == old(self).share,
            final(self).msg_length == old(self).msg_length,
            final(self).metrics.total == old(self).metrics.total,
            final(self).metrics.bytes == old(self).metrics.bytes,
            (outcome matches AckOutcome::Byte(b) && decode_spec(b) == AckStatus::Success)
                ==> final(self).metrics.success == old(self).metrics.success + 1
                && final(self).metrics.failed == old(self).metrics.failed,
            (outcome matches AckOutcome::Byte(b) && decode_spec(b) == AckStatus::Failure)
                ==> final(self).metrics.failed == old(self).metrics.failed + 1
                && final(self).metrics.success == old(self).metrics.success,
            (outcome matches AckOutcome::Byte(b) && decode_spec(b) == AckStatus::Unknown)
                ==> final(self).metrics == old(self).metrics,
            (outcome matches AckOutcome::ReadFailed) ==> final(self).metrics == old(
                self,
            ).metrics,
    {
        match outcome {
            AckOutcome::Byte(b) => {
                let status = crate::ack::decode(b);
                match status {
                    AckStatus::Success => {
                        self.metrics.success = self.metrics.success + 1;
                    },
                    AckStatus::Failure => {
                        self.metrics.failed = self.metrics.failed + 1;
                    },
                    AckStatus::Unknown => {},
                }
            },
            AckOutcome::ReadFailed => {},
        }
    }
}

/// The zero-filled message a channel sends: `len` bytes, all zero.
pub fn make_message(len: usize) -> (msg: Vec<u8>)
    ensures
        msg@.len() == len,
        forall|i: int| 0 <= i < len ==> msg@[i] == 0u8,
{
    let mut msg: Vec<u8> = Vec::new();
    let mut i: usize = 0;
    while i < len
        invariant
            i <= len,
            msg@.len() == i,
            forall|j: int| 0 <= j < i ==> msg@[j] == 0u8,
        decreases len - i,
    {
        msg.push(0u8);
        i = i + 1;
    }
    msg
}

/// A channel that completes cleanly — every attempt's acknowledgment
/// resolved as a success or a failure — ends with the attempts exactly
/// accounted for: `total == success + failed`.
pub proof fn lemma_clean_completion(w: ChannelWorker)
    requires
        w.wf(),
        w.metrics.success + w.metrics.failed >= w.metrics.total,
    ensures
        w.metrics.total == w.metrics.success + w.metrics.failed,
{
}

} // verus!
