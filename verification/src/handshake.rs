//! The handshake: one ephemeral key agreement per connection, from which the
//! session key is derived.

use vstd::prelude::*;
use crate::crypto::random_bytes;
use crate::crypto::sha256;
use crate::crypto::spec_basepoint;
use crate::crypto::spec_public_key;
use crate::crypto::spec_sha256;
use crate::crypto::spec_x25519;
use crate::crypto::x25519;
use crate::crypto::KEY_LEN;
use crate::error::spec_answers;
use crate::error::spec_refused;
use crate::error::KasError;
use crate::message::encode_frame;
use crate::message::spec_frame;
use crate::message::MessageType;
use crate::state::ConnectionState;

verus! {

/// The session key that the holder of `secret` derives with a peer whose
/// public key is `peer_public`: the digest of the shared point.
pub open spec fn spec_session_key(secret: Seq<u8>, peer_public: Seq<u8>) -> Seq<u8> {
    spec_sha256(spec_x25519(secret, peer_public))
}

/// What a handshake on `payload` with the server secret `secret` does to a
/// connection and what it answers.
///
/// On a connection without a session key and a payload of 32 bytes the
/// session key is set and the answer is the server's public key. On any other
/// the connection is left as it was: a connection that holds a key refuses
/// with `DuplicateHandshake`, a payload of another length is a
/// `MalformedFrame`.
pub open spec fn spec_handshake(
    before: ConnectionState,
    after: ConnectionState,
    payload: Seq<u8>,
    secret: Seq<u8>,
    r: Result<Vec<u8>, KasError>,
) -> bool {
    if before.key() is Some {
        after == before && spec_refused(r, KasError::DuplicateHandshake)
    } else if payload.len() != KEY_LEN {
        after == before && spec_refused(r, KasError::MalformedFrame)
    } else {
        &&& after.key() == Some(spec_session_key(secret, payload))
        &&& spec_answers(r, spec_frame(MessageType::PublicKey, spec_public_key(secret)))
    }
}

/// Both sides hold the same session key: whatever secret the client's public
/// key belongs to, the key that the client derives from that secret and the
/// server's public key is `session_key`.
pub open spec fn spec_agreement(
    session_key: Seq<u8>,
    client_public: Seq<u8>,
    server_public: Seq<u8>,
) -> bool {
    forall|client_secret: Seq<u8>|
        client_secret.len() == KEY_LEN && client_public == #[trigger] spec_public_key(
            client_secret,
        ) ==> session_key == spec_session_key(client_secret, server_public)
}

/// What a handshake on `payload` does, whatever secret the server drew.
/// Where no randomness could be had the connection is left as it was and the
/// request fails with `KeyMaterialNotReady`.
pub open spec fn spec_handshake_outcome(
    before: ConnectionState,
    after: ConnectionState,
    payload: Seq<u8>,
    r: Result<Vec<u8>, KasError>,
) -> bool {
    ||| exists|secret: Seq<u8>|
        secret.len() == KEY_LEN && #[trigger] spec_handshake(before, after, payload, secret, r)
            && (r is Ok ==> spec_agreement(after.key().unwrap(), payload, spec_public_key(secret)))
    ||| (before.key() is None && payload.len() == KEY_LEN && after == before && spec_refused(
        r,
        KasError::KeyMaterialNotReady,
    ))
}

/// The base point of X25519 as bytes.
pub fn basepoint() -> (point: Vec<u8>)
    ensures
        point@ == spec_basepoint(),
{
    let mut point: Vec<u8> = Vec::new();
    point.push(9);
    let mut i: usize = 1;
    while i < 32
        invariant
            1 <= i <= 32,
            point@.len() == i,
            point@[0] == 9,
            forall|j: int| 1 <= j < i ==> point@[j] == 0,
        decreases 32 - i,
    {
        point.push(0);
        i = i + 1;
    }
    assert(point@ =~= spec_basepoint());
    point
}

/// The handshake with a given server secret.
pub fn handshake_with_secret(state: &mut ConnectionState, payload: &[u8], secret: &Vec<u8>) -> (r:
    Result<Vec<u8>, KasError>)
    requires
        old(state).wf(),
        secret@.len() == KEY_LEN,
    ensures
        final(state).wf(),
        spec_handshake(*old(state), *final(state), payload@, secret@, r),
        r is Ok ==> spec_agreement(final(state).key().unwrap(), payload@, spec_public_key(secret@)),
        r matches Ok(frame) ==> frame@.len() == 1 + KEY_LEN && frame@[0] == 1,
{
    if state.has_session_key() {
        return Err(KasError::DuplicateHandshake);
    }
    if payload.len() != KEY_LEN {
        return Err(KasError::MalformedFrame);
    }
    let client_public = vstd::slice::slice_to_vec(payload);
    let server_public = x25519(secret, &basepoint());
    let shared = x25519(secret, &client_public);
    let session_key = sha256(&shared);
    state.establish(session_key);
    Ok(encode_frame(MessageType::PublicKey, server_public.as_slice()))
}

/// Handles a PublicKey request: draws a fresh server secret and performs the
/// handshake with it.
pub fn handle_public_key(state: &mut ConnectionState, payload: &[u8]) -> (r: Result<
    Vec<u8>,
    KasError,
>)
    requires
        old(state).wf(),
    ensures
        final(state).wf(),
        spec_handshake_outcome(*old(state), *final(state), payload@, r),
        r matches Ok(frame) ==> frame@.len() == 1 + KEY_LEN && frame@[0] == 1,
{
    if state.has_session_key() {
        proof {
            assert(spec_handshake(
                *state,
                *state,
                payload@,
                spec_basepoint(),
                Err(KasError::DuplicateHandshake),
            ));
        }
        return Err(KasError::DuplicateHandshake);
    }
    if payload.len() != KEY_LEN {
        proof {
            assert(spec_handshake(
                *state,
                *state,
                payload@,
                spec_basepoint(),
                Err(KasError::MalformedFrame),
            ));
        }
        return Err(KasError::MalformedFrame);
    }
    match random_bytes(KEY_LEN) {
        None => Err(KasError::KeyMaterialNotReady),
        Some(secret) => handshake_with_secret(state, payload, &secret),
    }
}

/// A second handshake on a connection is refused: it is answered with
/// nothing, and the session key stays what it was.
pub proof fn lemma_duplicate_handshake_rejected(
    before: ConnectionState,
    after: ConnectionState,
    payload: Seq<u8>,
    r: Result<Vec<u8>, KasError>,
)
    requires
        before.key() is Some,
        spec_handshake_outcome(before, after, payload, r),
    ensures
        r is Err,
        spec_refused(r, KasError::DuplicateHandshake),
        after == before,
        after.key() == before.key(),
{
}

/// Both sides of a handshake derive the same session key: where the
/// handshake answers, the frame holds a server public key of 32 bytes, and
/// the key that the client derives from its own secret and that public key
/// is the key that the connection now holds.
pub proof fn lemma_handshake_agreement(
    before: ConnectionState,
    after: ConnectionState,
    client_secret: Seq<u8>,
    r: Result<Vec<u8>, KasError>,
)
    requires
        client_secret.len() == KEY_LEN,
        spec_handshake_outcome(before, after, spec_public_key(client_secret), r),
        r is Ok,
    ensures
        r.unwrap()@.len() >= 1,
        r.unwrap()@[0] == 1,
        after.key() == Some(
            spec_session_key(client_secret, r.unwrap()@.subrange(1, r.unwrap()@.len() as int)),
        ),
{
    let frame = r.unwrap()@;
    let secret = choose|secret: Seq<u8>|
        secret.len() == KEY_LEN && #[trigger] spec_handshake(
            before,
            after,
            spec_public_key(client_secret),
            secret,
            r,
        ) && (r is Ok ==> spec_agreement(
            after.key().unwrap(),
            spec_public_key(client_secret),
            spec_public_key(secret),
        ));
    assert(frame.subrange(1, frame.len() as int) =~= spec_public_key(secret));
}

/// A handshake sets the session key at most once: whatever it answers, a
/// connection that held a key holds the same key afterwards, and one that
/// held none holds a key afterwards exactly if the handshake answered.
pub proof fn lemma_session_key_set_once(
    before: ConnectionState,
    after: ConnectionState,
    payload: Seq<u8>,
    r: Result<Vec<u8>, KasError>,
)
    requires
        spec_handshake_outcome(before, after, payload, r),
    ensures
        before.key() is Some ==> after.key() == before.key(),
        before.key() is None ==> (after.key() is Some <==> r is Ok),
        r is Ok <==> (before.key() is None && payload.len() == KEY_LEN && after.key() is Some),
{
}

} // verus!
