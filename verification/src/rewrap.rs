//! The rewrap: the data encryption key of an object is recovered by key
//! agreement with the ephemeral key in the object's header, and sealed under
//! the session key of the connection.

use vstd::prelude::*;
use crate::crypto::aes256_gcm_open;
use crate::crypto::aes256_gcm_seal;
use crate::crypto::random_bytes;
use crate::crypto::spec_aes256_gcm_open;
use crate::crypto::spec_aes256_gcm_seal;
use crate::crypto::spec_x25519;
use crate::crypto::x25519;
use crate::crypto::KEY_LEN;
use crate::crypto::NONCE_LEN;
use crate::crypto::TAG_LEN;
use crate::error::spec_answers;
use crate::error::spec_refused;
use crate::error::KasError;
use crate::header::parse_header;
use crate::header::spec_parse_header;
use crate::header::Header;
use crate::header::HeaderView;
use crate::header::PREFIXED_KEY_LEN;
use crate::message::encode_frame;
use crate::message::spec_frame;
use crate::message::MessageType;
use crate::state::ConnectionState;
use crate::state::KasKeyMaterial;

verus! {

/// What the policy gate says of a rewrap.
#[derive(Clone, Copy, Debug, PartialEq, Eq, Structural)]
pub enum PolicyDecision {
    Permit,
    Deny,
}

/// The step that verifies the policy binding of a header and decides whether
/// the requester may have the key. The engine asks it once per rewrap, after
/// the key is recovered and before it is sealed, and seals only on `Permit`.
pub trait PolicyGate {
    fn decide(&self, header: &Header, dek: &Vec<u8>) -> PolicyDecision;
}

/// A gate that permits every rewrap. It verifies no binding and checks no
/// access: it is not fit for production use.
#[derive(Clone, Copy, Debug)]
pub struct PermitAll;

impl PolicyGate for PermitAll {
    fn decide(&self, header: &Header, dek: &Vec<u8>) -> (decision: PolicyDecision)
        ensures
            decision == PolicyDecision::Permit,
    {
        PolicyDecision::Permit
    }
}

/// The raw key-agreement material of an ephemeral-key field: a field of 33
/// bytes loses its leading format byte, any other is taken as it is.
pub open spec fn spec_raw_key(field: Seq<u8>) -> Seq<u8> {
    if field.len() == PREFIXED_KEY_LEN {
        field.subrange(1, PREFIXED_KEY_LEN as int)
    } else {
        field
    }
}

/// The data encryption key of an object: what the server's private scalar
/// and the object's ephemeral key agree on.
pub open spec fn spec_dek(private: Seq<u8>, header: HeaderView) -> Seq<u8> {
    spec_x25519(private, spec_raw_key(header.ephemeral_key))
}

/// The private scalar of the server, once its key is loaded.
pub open spec fn spec_private(kas: Option<KasKeyMaterial>) -> Option<Seq<u8>> {
    match kas {
        Some(material) => Some(material.private()),
        None => None,
    }
}

/// The header of a rewrap request and the key recovered from it, or the
/// reason why none is recovered. The checks come in this order: the session
/// key, the header, the server's key.
pub open spec fn spec_recover(
    session_key: Option<Seq<u8>>,
    private: Option<Seq<u8>>,
    payload: Seq<u8>,
) -> Result<(HeaderView, Seq<u8>), KasError> {
    if session_key is None {
        Err(KasError::NoSessionKey)
    } else {
        match spec_parse_header(payload) {
            Err(e) => Err(e),
            Ok(header) => match private {
                None => Err(KasError::KeyMaterialNotReady),
                Some(scalar) => Ok((header, spec_dek(scalar, header))),
            },
        }
    }
}

/// The RewrappedKey frame for a key sealed under `session_key` with `nonce`:
/// the nonce, the ciphertext and the tag.
pub open spec fn spec_sealed_frame(session_key: Seq<u8>, nonce: Seq<u8>, dek: Seq<u8>) -> Option<
    Seq<u8>,
> {
    match spec_aes256_gcm_seal(session_key, nonce, dek) {
        Some(sealed) => Some(spec_frame(MessageType::RewrappedKey, nonce + sealed)),
        None => None,
    }
}

/// What sealing answers for a decision and a nonce.
pub open spec fn spec_seal(
    session_key: Seq<u8>,
    dek: Seq<u8>,
    decision: PolicyDecision,
    nonce: Seq<u8>,
    r: Result<Vec<u8>, KasError>,
) -> bool {
    if decision == PolicyDecision::Deny {
        spec_refused(r, KasError::PolicyDenied)
    } else {
        match spec_sealed_frame(session_key, nonce, dek) {
            Some(frame) => spec_answers(r, frame),
            None => spec_refused(r, KasError::EncryptionFailure),
        }
    }
}

/// What a rewrap answers, whatever the policy step decided and whatever nonce was
/// drawn. Where no key is recovered the reason is the answer. Where one is,
/// the answer is a RewrappedKey frame for some nonce of 12 bytes, or the
/// refusal `PolicyDenied`, or `EncryptionFailure` where no nonce could be
/// had.
pub open spec fn spec_rewrap_outcome(
    session_key: Option<Seq<u8>>,
    private: Option<Seq<u8>>,
    payload: Seq<u8>,
    r: Result<Vec<u8>, KasError>,
) -> bool {
    match spec_recover(session_key, private, payload) {
        Err(e) => spec_refused(r, e),
        Ok((header, dek)) => {
            ||| spec_refused(r, KasError::PolicyDenied)
            ||| spec_refused(r, KasError::EncryptionFailure)
            ||| exists|nonce: Seq<u8>|
                nonce.len() == NONCE_LEN && #[trigger] spec_sealed_frame(
                    session_key.unwrap(),
                    nonce,
                    dek,
                ) is Some && spec_answers(
                    r,
                    spec_sealed_frame(session_key.unwrap(), nonce, dek).unwrap(),
                )
        },
    }
}

/// Takes the raw key-agreement material out of an ephemeral-key field.
pub fn raw_ephemeral_key(field: &Vec<u8>) -> (raw: Vec<u8>)
    ensures
        raw@ == spec_raw_key(field@),
{
    if field.len() == PREFIXED_KEY_LEN {
        vstd::slice::slice_to_vec(
            vstd::slice::slice_subrange(field.as_slice(), 1, PREFIXED_KEY_LEN),
        )
    } else {
        field.clone()
    }
}

/// The first half of a rewrap: checks that the connection has a session key,
/// parses the header and recovers the data encryption key.
pub fn recover_dek(state: &ConnectionState, kas: &Option<KasKeyMaterial>, payload: &[u8]) -> (r:
    Result<(Header, Vec<u8>), KasError>)
    requires
        state.wf(),
        kas matches Some(material) ==> material.wf(),
    ensures
        match spec_recover(state.key(), spec_private(*kas), payload@) {
            Ok((header, dek)) => r matches Ok(v) && v.0@ == header && v.1@ == dek && header.wf()
                && dek.len() == KEY_LEN,
            Err(e) => r matches Err(x) && x == e,
        },
{
    if !state.has_session_key() {
        return Err(KasError::NoSessionKey);
    }
    let header = parse_header(payload)?;
    match kas {
        None => Err(KasError::KeyMaterialNotReady),
        Some(material) => {
            let raw = raw_ephemeral_key(header.get_ephemeral_key());
            let dek = x25519(material.private_scalar(), &raw);
            Ok((header, dek))
        },
    }
}

/// The second half of a rewrap: on `Permit`, seals the key under the session
/// key with the given nonce and frames nonce, ciphertext and tag.
pub fn seal_dek(
    session_key: &Vec<u8>,
    dek: &Vec<u8>,
    decision: PolicyDecision,
    nonce: &Vec<u8>,
) -> (r: Result<Vec<u8>, KasError>)
    requires
        session_key@.len() == KEY_LEN,
        nonce@.len() == NONCE_LEN,
    ensures
        spec_seal(session_key@, dek@, decision, nonce@, r),
        r matches Ok(frame) ==> frame@.len() == 1 + NONCE_LEN + dek@.len() + TAG_LEN && frame@[0]
            == 4,
        decision == PolicyDecision::Permit && dek@.len() == KEY_LEN ==> r is Ok,
{
    match decision {
        PolicyDecision::Deny => Err(KasError::PolicyDenied),
        PolicyDecision::Permit => match aes256_gcm_seal(session_key, nonce, dek) {
            None => Err(KasError::EncryptionFailure),
            Some(sealed) => {
                let mut body: Vec<u8> = nonce.clone();
                body.extend_from_slice(sealed.as_slice());
                assert(body@ =~= nonce@ + sealed@);
                Ok(encode_frame(MessageType::RewrappedKey, body.as_slice()))
            },
        },
    }
}

/// Handles a Rewrap request: recovers the key, asks the policy step, draws a fresh
/// nonce and seals.
pub fn handle_rewrap<G: PolicyGate>(
    state: &ConnectionState,
    kas: &Option<KasKeyMaterial>,
    gate: &G,
    payload: &[u8],
) -> (r: Result<Vec<u8>, KasError>)
    requires
        state.wf(),
        kas matches Some(material) ==> material.wf(),
    ensures
        spec_rewrap_outcome(state.key(), spec_private(*kas), payload@, r),
        r matches Ok(frame) ==> frame@.len() == 1 + NONCE_LEN + KEY_LEN + TAG_LEN && frame@[0]
            == 4,
{
    let (header, dek) = recover_dek(state, kas, payload)?;
    let decision = gate.decide(&header, &dek);
    if decision == PolicyDecision::Deny {
        return Err(KasError::PolicyDenied);
    }
    let session_key = match state.session_key() {
        Some(key) => key,
        None => {
            return Err(KasError::NoSessionKey);
        },
    };
    match random_bytes(NONCE_LEN) {
        None => Err(KasError::EncryptionFailure),
        Some(nonce) => seal_dek(session_key, &dek, decision, &nonce),
    }
}

/// A RewrappedKey frame is laid out as the tag, the nonce, then ciphertext
/// and authentication tag, so that its reader can take the nonce and the
/// sealed key back out of it.
pub proof fn lemma_sealed_frame_layout(session_key: Seq<u8>, nonce: Seq<u8>, dek: Seq<u8>)
    requires
        nonce.len() == NONCE_LEN,
        spec_sealed_frame(session_key, nonce, dek) is Some,
    ensures
        ({
            let frame = spec_sealed_frame(session_key, nonce, dek).unwrap();
            &&& frame.len() >= 1 + NONCE_LEN
            &&& frame[0] == 4
            &&& frame.subrange(1, 1 + NONCE_LEN as int) == nonce
            &&& Some(frame.subrange(1 + NONCE_LEN as int, frame.len() as int))
                == spec_aes256_gcm_seal(session_key, nonce, dek)
        }),
{
    let frame = spec_sealed_frame(session_key, nonce, dek).unwrap();
    let sealed = spec_aes256_gcm_seal(session_key, nonce, dek).unwrap();
    assert(frame.subrange(1, 1 + NONCE_LEN as int) =~= nonce);
    assert(frame.subrange(1 + NONCE_LEN as int, frame.len() as int) =~= sealed);
}

/// The key that the holder of `session_key` takes out of a RewrappedKey
/// frame; `None` for a frame of another kind, for one too short to hold a
/// nonce, and for one that does not authenticate.
pub open spec fn spec_open_frame(session_key: Seq<u8>, frame: Seq<u8>) -> Option<Seq<u8>> {
    if frame.len() >= 1 + NONCE_LEN && frame[0] == 4 {
        spec_aes256_gcm_open(
            session_key,
            frame.subrange(1, 1 + NONCE_LEN as int),
            frame.subrange(1 + NONCE_LEN as int, frame.len() as int),
        )
    } else {
        None
    }
}

/// The requester's side of a rewrap: takes the key out of a RewrappedKey
/// frame. A frame that was sealed under the same session key gives back
/// exactly the key that was sealed, whatever the nonce.
pub fn open_rewrapped_key(session_key: &Vec<u8>, frame: &[u8]) -> (r: Option<Vec<u8>>)
    requires
        session_key@.len() == KEY_LEN,
    ensures
        match spec_open_frame(session_key@, frame@) {
            Some(dek) => r matches Some(v) && v@ == dek,
            None => r is None,
        },
        forall|nonce: Seq<u8>, dek: Seq<u8>|
            nonce.len() == NONCE_LEN && #[trigger] spec_sealed_frame(session_key@, nonce, dek)
                == Some(frame@) ==> r is Some && r.unwrap()@ == dek,
{
    if frame.len() < 1 + NONCE_LEN || frame[0] != 4 {
        proof {
            assert forall|nonce: Seq<u8>, dek: Seq<u8>|
                nonce.len() == NONCE_LEN && #[trigger] spec_sealed_frame(
                    session_key@,
                    nonce,
                    dek,
                ) == Some(frame@) implies false by {
                lemma_sealed_frame_layout(session_key@, nonce, dek);
            }
        }
        return None;
    }
    let nonce = vstd::slice::slice_to_vec(vstd::slice::slice_subrange(frame, 1, 1 + NONCE_LEN));
    let sealed = vstd::slice::slice_to_vec(
        vstd::slice::slice_subrange(frame, 1 + NONCE_LEN, frame.len()),
    );
    let r = aes256_gcm_open(session_key, &nonce, &sealed);
    proof {
        assert forall|n: Seq<u8>, dek: Seq<u8>|
            n.len() == NONCE_LEN && #[trigger] spec_sealed_frame(session_key@, n, dek) == Some(
                frame@,
            ) implies r is Some && r.unwrap()@ == dek by {
            lemma_sealed_frame_layout(session_key@, n, dek);
        }
    }
    r
}

} // verus!
