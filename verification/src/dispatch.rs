//! The dispatcher: reads the tag of a frame and hands the payload to the
//! handler of that tag.

use vstd::prelude::*;
use crate::error::spec_answers;
use crate::error::spec_refused;
use crate::error::KasError;
use crate::handshake::handle_public_key;
use crate::handshake::spec_handshake_outcome;
use crate::header::spec_parse_header;
use crate::message::encode_frame;
use crate::message::spec_frame;
use crate::message::spec_from_u8;
use crate::message::MessageType;
use crate::rewrap::handle_rewrap;
use crate::rewrap::spec_private;
use crate::rewrap::spec_rewrap_outcome;
use crate::rewrap::PolicyGate;
use crate::state::ConnectionState;
use crate::state::COMPRESSED_POINT_LEN;
use crate::state::KasKeyMaterial;

verus! {

/// What a KasPublicKey request answers: the server's public key once it is
/// loaded, nothing before.
pub open spec fn spec_kas_public_key(kas: Option<KasKeyMaterial>, r: Result<Vec<u8>, KasError>) -> bool {
    match kas {
        Some(material) => spec_answers(
            r,
            spec_frame(MessageType::KasPublicKey, material.public()),
        ),
        None => spec_refused(r, KasError::KeyMaterialNotReady),
    }
}

/// The tag of the frame that answers a request with the tag `request`: a
/// PublicKey and a KasPublicKey request are answered in kind, a Rewrap
/// request with a RewrappedKey frame.
pub open spec fn spec_response_tag(request: u8) -> u8 {
    if request == 3 {
        4
    } else {
        request
    }
}

/// What a frame does to a connection and what it answers.
///
/// An empty frame is malformed and a first byte that is no tag is an unknown
/// message type. A RewrappedKey frame is an answer, not a request: it is
/// refused as malformed. Only a PublicKey frame can change the connection.
pub open spec fn spec_dispatch(
    before: ConnectionState,
    after: ConnectionState,
    kas: Option<KasKeyMaterial>,
    data: Seq<u8>,
    r: Result<Vec<u8>, KasError>,
) -> bool {
    if data.len() == 0 {
        after == before && spec_refused(r, KasError::MalformedFrame)
    } else {
        let payload = data.subrange(1, data.len() as int);
        match spec_from_u8(data[0]) {
            None => after == before && spec_refused(r, KasError::UnknownMessageType),
            Some(MessageType::PublicKey) => spec_handshake_outcome(before, after, payload, r),
            Some(MessageType::KasPublicKey) => after == before && spec_kas_public_key(kas, r),
            Some(MessageType::Rewrap) => after == before && spec_rewrap_outcome(
                before.key(),
                spec_private(kas),
                payload,
                r,
            ),
            Some(MessageType::RewrappedKey) => after == before && spec_refused(
                r,
                KasError::MalformedFrame,
            ),
        }
    }
}

/// Handles a KasPublicKey request. The payload is ignored.
pub fn handle_kas_public_key(kas: &Option<KasKeyMaterial>, payload: &[u8]) -> (r: Result<
    Vec<u8>,
    KasError,
>)
    ensures
        spec_kas_public_key(*kas, r),
        r is Ok <==> kas is Some,
        kas matches Some(material) ==> (material.wf() ==> r is Ok && r.unwrap()@.len() == 1
            + COMPRESSED_POINT_LEN && r.unwrap()@[0] == 2 && (r.unwrap()@[1] == 2 || r.unwrap()@[1]
            == 3)),
{
    match kas {
        Some(material) => Ok(
            encode_frame(MessageType::KasPublicKey, material.public_key().as_slice()),
        ),
        None => Err(KasError::KeyMaterialNotReady),
    }
}

/// Handles one frame: `Ok` holds the response frame to send, `Err` says why
/// nothing is sent. Either way the connection stays open.
pub fn handle_binary_message<G: PolicyGate>(
    state: &mut ConnectionState,
    kas: &Option<KasKeyMaterial>,
    gate: &G,
    data: &[u8],
) -> (r: Result<Vec<u8>, KasError>)
    requires
        old(state).wf(),
        kas matches Some(material) ==> material.wf(),
    ensures
        final(state).wf(),
        spec_dispatch(*old(state), *final(state), *kas, data@, r),
        r matches Ok(frame) ==> frame@.len() > 1 && frame@[0] == spec_response_tag(data@[0]),
{
    if data.len() < 1 {
        return Err(KasError::MalformedFrame);
    }
    let payload = vstd::slice::slice_subrange(data, 1, data.len());
    match MessageType::from_u8(data[0]) {
        None => Err(KasError::UnknownMessageType),
        Some(MessageType::PublicKey) => handle_public_key(state, payload),
        Some(MessageType::KasPublicKey) => handle_kas_public_key(kas, payload),
        Some(MessageType::Rewrap) => handle_rewrap(state, kas, gate, payload),
        Some(MessageType::RewrappedKey) => Err(KasError::MalformedFrame),
    }
}

/// Input that is no well-formed request is answered with nothing and leaves
/// the connection as it was: an empty frame, a frame whose first byte is no
/// tag, and a Rewrap frame whose header does not parse.
pub proof fn lemma_malformed_input_refused(
    before: ConnectionState,
    after: ConnectionState,
    kas: Option<KasKeyMaterial>,
    data: Seq<u8>,
    r: Result<Vec<u8>, KasError>,
)
    requires
        spec_dispatch(before, after, kas, data, r),
        data.len() == 0 || spec_from_u8(data[0]) is None || (spec_from_u8(data[0]) == Some(
            MessageType::Rewrap,
        ) && spec_parse_header(data.subrange(1, data.len() as int)) is Err),
    ensures
        r is Err,
        after == before,
        data.len() == 0 ==> spec_refused(r, KasError::MalformedFrame),
        data.len() > 0 && spec_from_u8(data[0]) is None ==> spec_refused(
            r,
            KasError::UnknownMessageType,
        ),
        data.len() > 0 && spec_from_u8(data[0]) is Some ==> spec_refused(
            r,
            if before.key() is None {
                KasError::NoSessionKey
            } else {
                spec_parse_header(data.subrange(1, data.len() as int))->Err_0
            },
        ),
{
}

/// No frame changes a session key that is set, and a frame that sets one is
/// a PublicKey frame that was answered.
pub proof fn lemma_session_key_is_kept(
    before: ConnectionState,
    after: ConnectionState,
    kas: Option<KasKeyMaterial>,
    data: Seq<u8>,
    r: Result<Vec<u8>, KasError>,
)
    requires
        spec_dispatch(before, after, kas, data, r),
    ensures
        before.key() is Some ==> after == before,
        after.key() != before.key() ==> data.len() == 33 && data[0] == 1 && r is Ok,
{
}

/// A Rewrap frame is answered only on a connection that holds a session
/// key, and only once the key of the server is loaded.
pub proof fn lemma_rewrap_needs_session_key(
    before: ConnectionState,
    after: ConnectionState,
    kas: Option<KasKeyMaterial>,
    data: Seq<u8>,
    r: Result<Vec<u8>, KasError>,
)
    requires
        data.len() > 0,
        data[0] == 3,
        spec_dispatch(before, after, kas, data, r),
    ensures
        before.key() is None ==> spec_refused(r, KasError::NoSessionKey),
        r is Ok ==> before.key() is Some && kas is Some && spec_parse_header(
            data.subrange(1, data.len() as int),
        ) is Ok,
{
}

/// A KasPublicKey request that comes before the key is loaded is answered
/// with nothing.
pub proof fn lemma_not_ready_refused(
    before: ConnectionState,
    after: ConnectionState,
    data: Seq<u8>,
    r: Result<Vec<u8>, KasError>,
)
    requires
        data.len() > 0,
        data[0] == 2,
        spec_dispatch(before, after, None, data, r),
    ensures
        spec_refused(r, KasError::KeyMaterialNotReady),
        after == before,
{
}

} // verus!
