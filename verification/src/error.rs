//! The ways in which a request can be refused.

use vstd::prelude::*;

verus! {

/// Why a request produced no response frame. None of these ends the
/// connection: the peer is free to send a corrected request.
#[derive(Clone, Copy, Debug, PartialEq, Eq, Structural)]
pub enum KasError {
    /// The frame is empty, or its payload does not have the shape that its
    /// tag calls for.
    MalformedFrame,
    /// The first byte of the frame is no known message tag.
    UnknownMessageType,
    /// The connection already holds a session key.
    DuplicateHandshake,
    /// The header ends before one of its fields does.
    TruncatedHeader,
    /// A fixed field of the header holds a value that is not known.
    InvalidHeaderField,
    /// The ephemeral-key field announces a length that is not accepted.
    EphemeralKeyLengthMismatch,
    /// A rewrap was asked for before a handshake.
    NoSessionKey,
    /// The policy gate did not permit the rewrap.
    PolicyDenied,
    /// The authenticated cipher refused to encrypt, or no nonce could be
    /// drawn for it.
    EncryptionFailure,
    /// The long-term key of the server has not been loaded, or no fresh
    /// ephemeral key could be drawn.
    KeyMaterialNotReady,
}

/// The request was refused with `e`.
pub open spec fn spec_refused(r: Result<Vec<u8>, KasError>, e: KasError) -> bool {
    r matches Err(x) && x == e
}

/// The request was answered with the frame `frame`.
pub open spec fn spec_answers(r: Result<Vec<u8>, KasError>, frame: Seq<u8>) -> bool {
    r matches Ok(bytes) && bytes@ == frame
}

} // verus!
