//! The one-byte acknowledgment protocol shared by client and server.
//!
//! A successful message is acknowledged with a byte of all ones, a failed
//! one with a byte of all zeros; every other byte value is malformed and
//! decodes to `Unknown`.

use vstd::prelude::*;

verus! {

/// The acknowledgment byte for a successfully received message.
pub const ACK_SUCCESS: u8 = 0xFF;

/// The acknowledgment byte for a failed read.
pub const ACK_FAILURE: u8 = 0x00;

/// What a received acknowledgment byte means.
#[derive(Clone, Copy, Debug, PartialEq, Eq, Structural)]
pub enum AckStatus {
    Success,
    Failure,
    Unknown,
}

/// The byte that encodes an acknowledgment: all ones for success, all
/// zeros for failure.
pub open spec fn encode_spec(success: bool) -> u8 {
    if success {
        ACK_SUCCESS
    } else {
        ACK_FAILURE
    }
}

/// The meaning of a received byte: the two protocol values decode to
/// `Success` and `Failure`; everything else is `Unknown`.
pub open spec fn decode_spec(byte: u8) -> AckStatus {
    if byte == ACK_SUCCESS {
        AckStatus::Success
    } else if byte == ACK_FAILURE {
        AckStatus::Failure
    } else {
        AckStatus::Unknown
    }
}

/// Encode an acknowledgment as its wire byte.
pub fn encode(success: bool) -> (byte: u8)
    ensures
        byte == encode_spec(success),
{
    if success {
        ACK_SUCCESS
    } else {
        ACK_FAILURE
    }
}

/// Decode a received wire byte.
pub fn decode(byte: u8) -> (status: AckStatus)
    ensures
        status == decode_spec(byte),
{
    if byte == ACK_SUCCESS {
        AckStatus::Success
    } else if byte == ACK_FAILURE {
        AckStatus::Failure
    } else {
        AckStatus::Unknown
    }
}

/// Round trip of the acknowledgment encoding: decoding an encoded
/// acknowledgment recovers it exactly (never `Unknown`), and any byte
/// outside the two protocol values decodes to `Unknown`.
pub proof fn lemma_ack_round_trip()
    ensures
        forall|b: bool|
            decode_spec(encode_spec(b)) == (if b {
                AckStatus::Success
            } else {
                AckStatus::Failure
            }),
        forall|byte: u8|
            byte != ACK_SUCCESS && byte != ACK_FAILURE ==> decode_spec(byte)
                == AckStatus::Unknown,
{
}

} // verus!
