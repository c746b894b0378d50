//! Wire frames: one tag byte, then the payload.

use vstd::prelude::*;

verus! {

/// The kind of a frame, carried in its first byte.
#[derive(Clone, Copy, Debug, PartialEq, Eq, Structural)]
pub enum MessageType {
    PublicKey,
    KasPublicKey,
    Rewrap,
    RewrappedKey,
}

/// The variant that a tag byte stands for, if any.
pub open spec fn spec_from_u8(value: u8) -> Option<MessageType> {
    if value == 1 {
        Some(MessageType::PublicKey)
    } else if value == 2 {
        Some(MessageType::KasPublicKey)
    } else if value == 3 {
        Some(MessageType::Rewrap)
    } else if value == 4 {
        Some(MessageType::RewrappedKey)
    } else {
        None
    }
}

/// A frame as bytes: the tag, then the payload.
pub open spec fn spec_frame(kind: MessageType, payload: Seq<u8>) -> Seq<u8> {
    seq![kind.spec_tag()] + payload
}

impl MessageType {
    /// The tag byte of a variant.
    pub open spec fn spec_tag(self) -> u8 {
        match self {
            MessageType::PublicKey => 1,
            MessageType::KasPublicKey => 2,
            MessageType::Rewrap => 3,
            MessageType::RewrappedKey => 4,
        }
    }

    /// Decodes a tag byte. A byte that is no tag decodes to `None`, never to
    /// a default variant.
    pub fn from_u8(value: u8) -> (r: Option<MessageType>)
        ensures
            r == spec_from_u8(value),
            r.is_some() <==> 1 <= value <= 4,
            r matches Some(kind) ==> kind.spec_tag() == value,
    {
        match value {
            1 => Some(MessageType::PublicKey),
            2 => Some(MessageType::KasPublicKey),
            3 => Some(MessageType::Rewrap),
            4 => Some(MessageType::RewrappedKey),
            _ => None,
        }
    }

    /// Encodes a variant as its tag byte.
    pub fn tag(self) -> (t: u8)
        ensures
            t == self.spec_tag(),
            spec_from_u8(t) == Some(self),
    {
        match self {
            MessageType::PublicKey => 1,
            MessageType::KasPublicKey => 2,
            MessageType::Rewrap => 3,
            MessageType::RewrappedKey => 4,
        }
    }
}

/// Builds the frame that carries `payload` under the tag of `kind`.
pub fn encode_frame(kind: MessageType, payload: &[u8]) -> (frame: Vec<u8>)
    ensures
        frame@ == spec_frame(kind, payload@),
        frame@.len() == payload@.len() + 1,
{
    let mut frame: Vec<u8> = Vec::new();
    frame.push(kind.tag());
    frame.extend_from_slice(payload);
    assert(frame@ =~= spec_frame(kind, payload@));
    frame
}

/// Decoding is the inverse of encoding, and only the four tags decode.
pub proof fn lemma_tag_round_trip(kind: MessageType, value: u8)
    ensures
        spec_from_u8(kind.spec_tag()) == Some(kind),
        spec_from_u8(value) matches Some(k) ==> k.spec_tag() == value,
        spec_from_u8(value).is_none() <==> (value == 0 || value > 4),
{
}

} // verus!
