use aes_gcm::aead::Aead;
use aes_gcm::KeyInit;
use nanotdf_kas::dispatch::handle_binary_message;
use nanotdf_kas::dispatch::handle_kas_public_key;
use nanotdf_kas::error::KasError;
use nanotdf_kas::handshake::basepoint;
use nanotdf_kas::handshake::handle_public_key;
use nanotdf_kas::handshake::handshake_with_secret;
use nanotdf_kas::header::Header;
use nanotdf_kas::message::encode_frame;
use nanotdf_kas::message::MessageType;
use nanotdf_kas::rewrap::handle_rewrap;
use nanotdf_kas::rewrap::open_rewrapped_key;
use nanotdf_kas::rewrap::raw_ephemeral_key;
use nanotdf_kas::rewrap::recover_dek;
use nanotdf_kas::rewrap::seal_dek;
use nanotdf_kas::rewrap::PermitAll;
use nanotdf_kas::rewrap::PolicyDecision;
use nanotdf_kas::rewrap::PolicyGate;
use nanotdf_kas::state::load_key_material;
use nanotdf_kas::state::ConnectionState;
use nanotdf_kas::state::KasKeyMaterial;
use p256::elliptic_curve::sec1::ToEncodedPoint;
use sha2::Digest;

const ALICE_SECRET: &str = "77076d0a7318a57d3c16c17251b26645df4c2f87ebc0992ab177fba51db92c2a";
const ALICE_PUBLIC: &str = "8520f0098930a754748b7ddcb43ef75a0dbf3a0d26381af4eba4a98eaa9b4e6a";
const BOB_SECRET: &str = "5dab087e624a8a4b79e17f8b83800ee66f3bb1292618b6fd1c2f8b27ff88e0eb";
const BOB_PUBLIC: &str = "de9edb7d7b7dc1b4d35b61c2ece435373f8343c85b78674dadfc7e146f882b4f";
const SHARED: &str = "4a5d9d5ba4ce2de1728e3bf480350f25e07e21c947d19e3376f09b3c1e161742";

struct DenyAll;

impl PolicyGate for DenyAll {
    fn decide(&self, _header: &Header, _dek: &Vec<u8>) -> PolicyDecision {
        PolicyDecision::Deny
    }
}

fn arr32(bytes: &[u8]) -> [u8; 32] {
    let mut out = [0u8; 32];
    out.copy_from_slice(bytes);
    out
}

fn dh(secret: &[u8], point: &[u8]) -> Vec<u8> {
    x25519_dalek::x25519(arr32(secret), arr32(point)).to_vec()
}

fn public_of(secret: &[u8]) -> Vec<u8> {
    dh(secret, &x25519_dalek::X25519_BASEPOINT_BYTES)
}

fn digest(bytes: &[u8]) -> Vec<u8> {
    sha2::Sha256::digest(bytes).to_vec()
}

fn open_sealed(session_key: &[u8], body: &[u8]) -> Vec<u8> {
    let cipher = aes_gcm::Aes256Gcm::new_from_slice(session_key).unwrap();
    let nonce: [u8; 12] = body[..12].try_into().unwrap();
    cipher.decrypt(&nonce.into(), &body[12..]).unwrap()
}

fn kas_material() -> KasKeyMaterial {
    let secret = p256::SecretKey::from_slice(&[0x11u8; 32]).unwrap();
    let public = secret.public_key().to_encoded_point(true).as_bytes().to_vec();
    KasKeyMaterial::new(secret.to_bytes().to_vec(), public).unwrap()
}

fn header_with_key(key: &[u8]) -> Vec<u8> {
    let mut h: Vec<u8> = vec![0x4C, 0x31, 0x4C];
    h.extend_from_slice(&[0x01, 0x03]);
    h.extend_from_slice(b"kas");
    h.push(0x00);
    h.extend_from_slice(&[0x01, 0x01, b'p']);
    h.extend_from_slice(&[8, 7, 6, 5, 4, 3, 2, 1]);
    h.push(key.len() as u8);
    h.extend_from_slice(key);
    h.push(0x00);
    h
}

fn prefixed(raw: &[u8]) -> Vec<u8> {
    let mut key = vec![0x03u8];
    key.extend_from_slice(raw);
    key
}

fn keyed_state(secret: &[u8], client_public: &[u8]) -> ConnectionState {
    let mut state = ConnectionState::new();
    handshake_with_secret(&mut state, client_public, &secret.to_vec()).unwrap();
    state
}

#[test]
fn tags_decode_to_their_variants() {
    assert_eq!(MessageType::from_u8(1), Some(MessageType::PublicKey));
    assert_eq!(MessageType::from_u8(2), Some(MessageType::KasPublicKey));
    assert_eq!(MessageType::from_u8(3), Some(MessageType::Rewrap));
    assert_eq!(MessageType::from_u8(4), Some(MessageType::RewrappedKey));
    assert_eq!(MessageType::from_u8(0), None);
    assert_eq!(MessageType::from_u8(5), None);
    assert_eq!(MessageType::from_u8(255), None);
}

#[test]
fn tags_round_trip() {
    for value in 0..=255u8 {
        match MessageType::from_u8(value) {
            Some(kind) => assert_eq!(kind.tag(), value),
            None => assert!(value == 0 || value > 4),
        }
    }
    assert_eq!(MessageType::RewrappedKey.tag(), 4);
}

#[test]
fn frames_are_tag_then_payload() {
    assert_eq!(encode_frame(MessageType::Rewrap, &[9, 8, 7]), vec![3, 9, 8, 7]);
    assert_eq!(encode_frame(MessageType::KasPublicKey, &[]), vec![2]);
}

#[test]
fn new_connection_has_no_session_key() {
    let state = ConnectionState::new();
    assert!(!state.has_session_key());
    assert!(state.session_key().is_none());
}

#[test]
fn basepoint_is_nine_then_zeros() {
    assert_eq!(basepoint(), x25519_dalek::X25519_BASEPOINT_BYTES.to_vec());
}

#[test]
fn handshake_with_known_vectors() {
    let bob_secret = hex::decode(BOB_SECRET).unwrap();
    let alice_public = hex::decode(ALICE_PUBLIC).unwrap();
    let mut state = ConnectionState::new();
    let frame = handshake_with_secret(&mut state, &alice_public, &bob_secret).unwrap();
    let mut expected = vec![1u8];
    expected.extend_from_slice(&hex::decode(BOB_PUBLIC).unwrap());
    assert_eq!(frame, expected);
    let shared = hex::decode(SHARED).unwrap();
    assert_eq!(state.session_key().unwrap(), &digest(&shared));
    assert_ne!(state.session_key().unwrap(), &shared);
    assert_ne!(&frame[1..], &bob_secret[..]);
    // The other side derives the same key from its own secret.
    let alice_secret = hex::decode(ALICE_SECRET).unwrap();
    assert_eq!(state.session_key().unwrap(), &digest(&dh(&alice_secret, &frame[1..])));
}

#[test]
fn handshake_agreement_with_fresh_server_secret() {
    for seed in [1u8, 2, 77, 200] {
        let client_secret = [seed; 32];
        let client_public = public_of(&client_secret);
        let mut state = ConnectionState::new();
        let frame = handle_public_key(&mut state, &client_public).unwrap();
        assert_eq!(frame.len(), 33);
        assert_eq!(frame[0], 1);
        let client_key = digest(&dh(&client_secret, &frame[1..]));
        assert_eq!(state.session_key().unwrap(), &client_key);
        assert_eq!(client_key.len(), 32);
    }
}

#[test]
fn fresh_server_secrets_differ() {
    let client_public = public_of(&[5u8; 32]);
    let mut a = ConnectionState::new();
    let mut b = ConnectionState::new();
    let fa = handle_public_key(&mut a, &client_public).unwrap();
    let fb = handle_public_key(&mut b, &client_public).unwrap();
    assert_ne!(fa, fb);
}

#[test]
fn duplicate_handshake_is_rejected() {
    let client_public = public_of(&[7u8; 32]);
    let mut state = ConnectionState::new();
    handle_public_key(&mut state, &client_public).unwrap();
    let key = state.session_key().unwrap().clone();
    let second = handle_public_key(&mut state, &public_of(&[8u8; 32]));
    assert_eq!(second.unwrap_err(), KasError::DuplicateHandshake);
    assert_eq!(state.session_key().unwrap(), &key);
    let mut frame = vec![1u8];
    frame.extend_from_slice(&client_public);
    let third = handle_binary_message(&mut state, &None, &PermitAll, &frame);
    assert_eq!(third.unwrap_err(), KasError::DuplicateHandshake);
    assert_eq!(state.session_key().unwrap(), &key);
    // A duplicate is reported before the payload is looked at.
    let fourth = handshake_with_secret(&mut state, &[1, 2, 3], &vec![9u8; 32]);
    assert_eq!(fourth.unwrap_err(), KasError::DuplicateHandshake);
    assert_eq!(state.session_key().unwrap(), &key);
}

#[test]
fn handshake_payload_must_be_32_bytes() {
    for len in [0usize, 1, 31, 33, 64] {
        let mut state = ConnectionState::new();
        let r = handle_public_key(&mut state, &vec![1u8; len]);
        assert_eq!(r.unwrap_err(), KasError::MalformedFrame);
        assert!(!state.has_session_key());
    }
}

#[test]
fn kas_public_key_is_served_once_loaded() {
    let kas = Some(kas_material());
    let frame = handle_kas_public_key(&kas, &[1, 2, 3]).unwrap();
    assert_eq!(frame.len(), 34);
    assert_eq!(frame[0], 2);
    assert!(frame[1] == 0x02 || frame[1] == 0x03);
    assert_eq!(&frame[1..], &kas.as_ref().unwrap().public_key()[..]);
}

#[test]
fn kas_public_key_not_ready() {
    assert_eq!(handle_kas_public_key(&None, &[]).unwrap_err(), KasError::KeyMaterialNotReady);
    let mut state = ConnectionState::new();
    let r = handle_binary_message(&mut state, &None, &PermitAll, &[2]);
    assert_eq!(r.unwrap_err(), KasError::KeyMaterialNotReady);
}

#[test]
fn key_material_must_have_the_shape_of_a_key_pair() {
    let mut public = vec![0x02u8];
    public.extend_from_slice(&[1u8; 32]);
    assert!(KasKeyMaterial::new(vec![1u8; 32], public.clone()).is_some());
    assert!(KasKeyMaterial::new(vec![1u8; 31], public.clone()).is_none());
    assert!(KasKeyMaterial::new(vec![1u8; 32], vec![0x02u8; 32]).is_none());
    assert!(KasKeyMaterial::new(vec![1u8; 32], vec![0x04u8; 33]).is_none());
    assert!(KasKeyMaterial::new(vec![1u8; 32], vec![0x03u8; 33]).is_some());
    assert!(KasKeyMaterial::new(vec![1u8; 32], vec![0x04u8; 65]).is_none());
}

#[test]
fn key_material_is_loaded_from_pem() {
    let secret = p256::SecretKey::from_slice(&[0x11u8; 32]).unwrap();
    let der = secret.to_sec1_der().unwrap();
    let text = pem::encode(&pem::Pem::new("EC PRIVATE KEY", der.to_vec()));
    let kas = Some(load_key_material(text.as_bytes()).unwrap());
    let public = secret.public_key().to_encoded_point(true).as_bytes().to_vec();
    assert_eq!(kas.as_ref().unwrap().public_key(), &public);
    assert_eq!(public.len(), 33);
    assert_ne!(&public[1..], &[0x11u8; 32][..]);
    // The private scalar is the one in the file: a rewrap agrees with it.
    let state = keyed_state(&[4u8; 32], &public_of(&[5u8; 32]));
    let object_public = public_of(&[0x42u8; 32]);
    let (_, dek) = recover_dek(&state, &kas, &header_with_key(&prefixed(&object_public))).unwrap();
    assert_eq!(dek, dh(&[0x11u8; 32], &object_public));
}

#[test]
fn text_without_a_key_gives_no_key_material() {
    assert!(load_key_material(b"").is_none());
    assert!(load_key_material(b"not a pem file").is_none());
    let text = pem::encode(&pem::Pem::new("EC PRIVATE KEY", vec![1u8, 2, 3]));
    assert!(load_key_material(text.as_bytes()).is_none());
}

#[test]
fn raw_key_strips_one_leading_byte_of_33() {
    let raw: Vec<u8> = (0..32).collect();
    assert_eq!(raw_ephemeral_key(&prefixed(&raw)), raw);
    assert_eq!(raw_ephemeral_key(&raw), raw);
    assert_eq!(raw_ephemeral_key(&vec![1, 2, 3]), vec![1, 2, 3]);
}

#[test]
fn recover_dek_is_key_agreement_with_the_header_key() {
    let state = keyed_state(&[4u8; 32], &public_of(&[5u8; 32]));
    let kas = Some(kas_material());
    let kas_private = [0x11u8; 32];
    let object_secret = [0x42u8; 32];
    let object_public = public_of(&object_secret);
    let (header, dek) =
        recover_dek(&state, &kas, &header_with_key(&prefixed(&object_public))).unwrap();
    assert_eq!(header.get_ephemeral_key(), &prefixed(&object_public));
    assert_eq!(dek, dh(&kas_private, &object_public));
    assert_eq!(dek, dh(&object_secret, &public_of(&kas_private)));
    assert_ne!(dek, object_public);
    let (_, dek32) = recover_dek(&state, &kas, &header_with_key(&object_public)).unwrap();
    assert_eq!(dek32, dek);
}

#[test]
fn seal_dek_with_a_given_nonce() {
    let session_key = vec![0x21u8; 32];
    let dek = vec![0x55u8; 32];
    let nonce = vec![0x0Au8; 12];
    let frame = seal_dek(&session_key, &dek, PolicyDecision::Permit, &nonce).unwrap();
    assert_eq!(frame.len(), 1 + 12 + 32 + 16);
    assert_eq!(frame[0], 4);
    assert_eq!(&frame[1..13], &nonce[..]);
    let cipher = aes_gcm::Aes256Gcm::new_from_slice(&session_key).unwrap();
    let nonce_arr: [u8; 12] = [0x0A; 12];
    let expected = cipher.encrypt(&nonce_arr.into(), &dek[..]).unwrap();
    assert_eq!(&frame[13..], &expected[..]);
    assert_ne!(&frame[13..45], &dek[..]);
    assert_eq!(open_sealed(&session_key, &frame[1..]), dek);
}

#[test]
fn seal_dek_denied() {
    let r = seal_dek(&vec![1u8; 32], &vec![2u8; 32], PolicyDecision::Deny, &vec![3u8; 12]);
    assert_eq!(r.unwrap_err(), KasError::PolicyDenied);
}

#[test]
fn rewrap_round_trip() {
    let state = keyed_state(&[4u8; 32], &public_of(&[5u8; 32]));
    let session_key = state.session_key().unwrap().clone();
    let kas = Some(kas_material());
    let object_public = public_of(&[0x42u8; 32]);
    let payload = header_with_key(&prefixed(&object_public));
    let first = handle_rewrap(&state, &kas, &PermitAll, &payload).unwrap();
    let second = handle_rewrap(&state, &kas, &PermitAll, &payload).unwrap();
    assert_eq!(first[0], 4);
    assert_eq!(first.len(), 1 + 12 + 32 + 16);
    let dek = dh(&[0x11u8; 32], &object_public);
    assert_eq!(open_sealed(&session_key, &first[1..]), dek);
    assert_eq!(open_sealed(&session_key, &second[1..]), dek);
    assert_eq!(open_rewrapped_key(&session_key, &first), Some(dek.clone()));
    assert_eq!(open_rewrapped_key(&session_key, &second), Some(dek));
    assert_ne!(&first[1..13], &second[1..13]);
}

#[test]
fn opening_undoes_sealing() {
    for seed in [0u8, 1, 0x80, 0xFF] {
        let session_key = vec![seed; 32];
        let dek: Vec<u8> = (0..32).map(|i| seed.wrapping_add(i)).collect();
        let nonce = vec![seed ^ 0x5A; 12];
        let frame = seal_dek(&session_key, &dek, PolicyDecision::Permit, &nonce).unwrap();
        assert_eq!(open_rewrapped_key(&session_key, &frame), Some(dek.clone()));
        assert_ne!(&frame[13..45], &dek[..]);
    }
}

#[test]
fn opening_refuses_what_was_not_sealed() {
    let session_key = vec![7u8; 32];
    let dek = vec![9u8; 32];
    let frame = seal_dek(&session_key, &dek, PolicyDecision::Permit, &vec![1u8; 12]).unwrap();
    assert_eq!(open_rewrapped_key(&vec![8u8; 32], &frame), None);
    let mut tampered = frame.clone();
    tampered[20] ^= 1;
    assert_eq!(open_rewrapped_key(&session_key, &tampered), None);
    let mut other_nonce = frame.clone();
    other_nonce[1] ^= 1;
    assert_eq!(open_rewrapped_key(&session_key, &other_nonce), None);
    let mut other_tag = frame.clone();
    other_tag[0] = 3;
    assert_eq!(open_rewrapped_key(&session_key, &other_tag), None);
    assert_eq!(open_rewrapped_key(&session_key, &[]), None);
    assert_eq!(open_rewrapped_key(&session_key, &[4]), None);
    assert_eq!(open_rewrapped_key(&session_key, &frame[..12]), None);
    assert_eq!(open_rewrapped_key(&session_key, &frame[..28]), None);
    assert_eq!(open_rewrapped_key(&session_key, &frame[..frame.len() - 1]), None);
}

#[test]
fn rewrap_needs_a_session_key() {
    let state = ConnectionState::new();
    let kas = Some(kas_material());
    let payload = header_with_key(&prefixed(&[1u8; 32]));
    assert_eq!(
        handle_rewrap(&state, &kas, &PermitAll, &payload).unwrap_err(),
        KasError::NoSessionKey
    );
    // The session key is looked for before the header is parsed.
    assert_eq!(
        handle_rewrap(&state, &kas, &PermitAll, &[]).unwrap_err(),
        KasError::NoSessionKey
    );
}

#[test]
fn rewrap_needs_the_server_key() {
    let state = keyed_state(&[4u8; 32], &public_of(&[5u8; 32]));
    let payload = header_with_key(&prefixed(&[1u8; 32]));
    assert_eq!(
        handle_rewrap(&state, &None, &PermitAll, &payload).unwrap_err(),
        KasError::KeyMaterialNotReady
    );
    // A header that does not parse is reported first.
    assert_eq!(
        handle_rewrap(&state, &None, &PermitAll, &payload[..10]).unwrap_err(),
        KasError::TruncatedHeader
    );
}

#[test]
fn rewrap_denied_by_the_gate() {
    let state = keyed_state(&[4u8; 32], &public_of(&[5u8; 32]));
    let kas = Some(kas_material());
    let payload = header_with_key(&prefixed(&[1u8; 32]));
    assert_eq!(
        handle_rewrap(&state, &kas, &DenyAll, &payload).unwrap_err(),
        KasError::PolicyDenied
    );
}

#[test]
fn malformed_input_yields_no_response() {
    let mut state = keyed_state(&[4u8; 32], &public_of(&[5u8; 32]));
    let key = state.session_key().unwrap().clone();
    let kas = Some(kas_material());
    let empty = handle_binary_message(&mut state, &kas, &PermitAll, &[]);
    assert_eq!(empty.unwrap_err(), KasError::MalformedFrame);
    let mut truncated = vec![3u8];
    truncated.extend_from_slice(&header_with_key(&prefixed(&[1u8; 32]))[..20]);
    let r = handle_binary_message(&mut state, &kas, &PermitAll, &truncated);
    assert_eq!(r.unwrap_err(), KasError::TruncatedHeader);
    let mut bad_key = vec![3u8];
    bad_key.extend_from_slice(&header_with_key(&[1u8; 65]));
    let r = handle_binary_message(&mut state, &kas, &PermitAll, &bad_key);
    assert_eq!(r.unwrap_err(), KasError::EphemeralKeyLengthMismatch);
    let r = handle_binary_message(&mut state, &kas, &PermitAll, &[3]);
    assert_eq!(r.unwrap_err(), KasError::TruncatedHeader);
    assert_eq!(state.session_key().unwrap(), &key);
}

#[test]
fn unknown_and_response_only_tags_are_refused() {
    let mut state = ConnectionState::new();
    let kas = Some(kas_material());
    for tag in [0u8, 5, 6, 0x7F, 0xFF] {
        let r = handle_binary_message(&mut state, &kas, &PermitAll, &[tag, 1, 2]);
        assert_eq!(r.unwrap_err(), KasError::UnknownMessageType);
    }
    let r = handle_binary_message(&mut state, &kas, &PermitAll, &[4, 1, 2]);
    assert_eq!(r.unwrap_err(), KasError::MalformedFrame);
    assert!(!state.has_session_key());
}

#[test]
fn end_to_end_session() {
    let kas = Some(kas_material());
    let mut state = ConnectionState::new();
    // Handshake.
    let client_secret = [0x33u8; 32];
    let mut hello = vec![1u8];
    hello.extend_from_slice(&public_of(&client_secret));
    let answer = handle_binary_message(&mut state, &kas, &PermitAll, &hello).unwrap();
    assert_eq!(answer.len(), 33);
    assert_eq!(answer[0], 1);
    let session_key = digest(&dh(&client_secret, &answer[1..]));
    assert_eq!(state.session_key().unwrap(), &session_key);
    // The server's long-term public key.
    let answer = handle_binary_message(&mut state, &kas, &PermitAll, &[2]).unwrap();
    assert_eq!(answer.len(), 34);
    assert_eq!(answer[0], 2);
    assert!(answer[1] == 0x02 || answer[1] == 0x03);
    // Rewrap.
    let object_public = public_of(&[0x42u8; 32]);
    let mut request = vec![3u8];
    request.extend_from_slice(&header_with_key(&prefixed(&object_public)));
    let answer = handle_binary_message(&mut state, &kas, &PermitAll, &request).unwrap();
    assert_eq!(answer[0], 4);
    assert_eq!(answer.len(), 1 + 12 + 32 + 16);
    let dek = open_sealed(&session_key, &answer[1..]);
    assert_eq!(dek.len(), 32);
    assert_eq!(open_rewrapped_key(&session_key, &answer), Some(dek.clone()));
    assert_eq!(dek, dh(&[0x11u8; 32], &object_public));
    assert_eq!(state.session_key().unwrap(), &session_key);
}
