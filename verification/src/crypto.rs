//! The cryptographic primitives that the engine relies on. Each function
//! here calls a cryptography crate; its contract is taken on trust from that
//! crate's source and is not proved.

use vstd::prelude::*;

verus! {

/// Length of an X25519 scalar, of an X25519 point and of a session key.
pub const KEY_LEN: usize = 32;

/// Length of the nonce of the authenticated cipher.
pub const NONCE_LEN: usize = 12;

/// Length of the authentication tag of the authenticated cipher.
pub const TAG_LEN: usize = 16;

/// The largest plaintext that the authenticated cipher takes.
pub const MAX_PLAINTEXT_LEN: u64 = 0x10_0000_0000;

/// What X25519 maps a scalar and a point to.
pub uninterp spec fn spec_x25519(scalar: Seq<u8>, point: Seq<u8>) -> Seq<u8>;

/// The base point of X25519: nine, then thirty-one zero bytes.
pub open spec fn spec_basepoint() -> Seq<u8> {
    Seq::new(32, |i: int| if i == 0 { 9u8 } else { 0u8 })
}

/// The public key that belongs to a secret scalar.
pub open spec fn spec_public_key(secret: Seq<u8>) -> Seq<u8> {
    spec_x25519(secret, spec_basepoint())
}

/// The SHA-256 digest of a byte string.
pub uninterp spec fn spec_sha256(data: Seq<u8>) -> Seq<u8>;

/// The ciphertext and tag that AES-256-GCM produces for a key, a nonce and a
/// plaintext, with no associated data; `None` where it refuses the plaintext.
pub uninterp spec fn spec_aes256_gcm_seal(key: Seq<u8>, nonce: Seq<u8>, plaintext: Seq<u8>) -> Option<
    Seq<u8>,
>;

/// The plaintext that AES-256-GCM recovers for a key, a nonce and a
/// ciphertext with its tag, with no associated data; `None` where it refuses
/// them.
pub uninterp spec fn spec_aes256_gcm_open(key: Seq<u8>, nonce: Seq<u8>, sealed: Seq<u8>) -> Option<
    Seq<u8>,
>;

/// The bytes that the first PEM block of a text holds; `None` where the text
/// holds no well-formed block.
pub uninterp spec fn spec_pem_contents(text: Seq<u8>) -> Option<Seq<u8>>;

/// The private scalar of the P-256 key that a SEC1 `ECPrivateKey` in DER
/// holds; `None` where the bytes are no such key.
pub uninterp spec fn spec_sec1_private_scalar(der: Seq<u8>) -> Option<Seq<u8>>;

/// The P-256 public key of a private scalar, in compressed point encoding;
/// `None` where the bytes are no private scalar.
pub uninterp spec fn spec_p256_public_key(scalar: Seq<u8>) -> Option<Seq<u8>>;

/// Calls `x25519_dalek::x25519`. Trusted: the result is a function of the
/// two arguments, named `spec_x25519`, and is 32 bytes long; and the two
/// sides of a key agreement agree, as the documentation of that function
/// shows for Diffie-Hellman: where `point` is the public key of some other
/// secret, the result is what the holder of that secret gets from the public
/// key of `scalar`.
#[verifier::external_body]
pub(crate) fn x25519(scalar: &Vec<u8>, point: &Vec<u8>) -> (out: Vec<u8>)
    requires
        scalar@.len() == KEY_LEN,
        point@.len() == KEY_LEN,
    ensures
        out@ == spec_x25519(scalar@, point@),
        out@.len() == KEY_LEN,
        forall|other: Seq<u8>|
            other.len() == KEY_LEN && point@ == #[trigger] spec_public_key(other) ==> out@
                == spec_x25519(other, spec_public_key(scalar@)),
{
    let k: [u8; 32] = scalar.as_slice().try_into().unwrap();
    let u: [u8; 32] = point.as_slice().try_into().unwrap();
    x25519_dalek::x25519(k, u).to_vec()
}

/// Calls `Sha256::digest` of `sha2`. Trusted: the result is a function of
/// the argument, named `spec_sha256`, and is 32 bytes long.
#[verifier::external_body]
pub(crate) fn sha256(data: &Vec<u8>) -> (out: Vec<u8>)
    ensures
        out@ == spec_sha256(data@),
        out@.len() == KEY_LEN,
{
    <sha2::Sha256 as sha2::Digest>::digest(data.as_slice()).to_vec()
}

/// Calls `Aes256Gcm::encrypt` of `aes_gcm`. Trusted: the result is a
/// function of the three arguments, named `spec_aes256_gcm_seal`; it is
/// `Some` for every plaintext of at most `MAX_PLAINTEXT_LEN` bytes, and the
/// output is then the plaintext's length plus that of the tag.
#[allow(deprecated)]
#[verifier::external_body]
pub(crate) fn aes256_gcm_seal(key: &Vec<u8>, nonce: &Vec<u8>, plaintext: &Vec<u8>) -> (out: Option<
    Vec<u8>,
>)
    requires
        key@.len() == KEY_LEN,
        nonce@.len() == NONCE_LEN,
    ensures
        out matches Some(sealed) ==> spec_aes256_gcm_seal(key@, nonce@, plaintext@) == Some(
            sealed@,
        ) && sealed@.len() == plaintext@.len() + TAG_LEN,
        out is None ==> spec_aes256_gcm_seal(key@, nonce@, plaintext@) is None,
        plaintext@.len() <= MAX_PLAINTEXT_LEN ==> out is Some,
{
    let key = aes_gcm::Key::<aes_gcm::Aes256Gcm>::from_slice(key.as_slice());
    let cipher = <aes_gcm::Aes256Gcm as aes_gcm::KeyInit>::new(key);
    let nonce = aes_gcm::Nonce::from_slice(nonce.as_slice());
    aes_gcm::aead::Aead::encrypt(&cipher, nonce, plaintext.as_slice()).ok()
}

/// Calls `Aes256Gcm::decrypt` of `aes_gcm`. Trusted: the result is a
/// function of the three arguments, named `spec_aes256_gcm_open`; a
/// plaintext that comes back is shorter than the input by the tag; and
/// decryption undoes encryption, as the documentation of the crate shows:
/// where the input is what some plaintext is sealed to under the same key and
/// nonce, that plaintext comes back.
#[allow(deprecated)]
#[verifier::external_body]
pub(crate) fn aes256_gcm_open(key: &Vec<u8>, nonce: &Vec<u8>, sealed: &Vec<u8>) -> (out: Option<
    Vec<u8>,
>)
    requires
        key@.len() == KEY_LEN,
        nonce@.len() == NONCE_LEN,
    ensures
        out matches Some(plaintext) ==> spec_aes256_gcm_open(key@, nonce@, sealed@) == Some(
            plaintext@,
        ) && plaintext@.len() + TAG_LEN == sealed@.len(),
        out is None ==> spec_aes256_gcm_open(key@, nonce@, sealed@) is None,
        forall|plaintext: Seq<u8>| #[trigger]
            spec_aes256_gcm_seal(key@, nonce@, plaintext) == Some(sealed@) ==> out is Some
                && out.unwrap()@ == plaintext,
{
    let key = aes_gcm::Key::<aes_gcm::Aes256Gcm>::from_slice(key.as_slice());
    let cipher = <aes_gcm::Aes256Gcm as aes_gcm::KeyInit>::new(key);
    let nonce = aes_gcm::Nonce::from_slice(nonce.as_slice());
    aes_gcm::aead::Aead::decrypt(&cipher, nonce, sealed.as_slice()).ok()
}

/// Calls `pem::parse` and takes the contents of the block. Trusted: the
/// result is a function of the text, named `spec_pem_contents`.
#[verifier::external_body]
pub(crate) fn pem_contents(text: &[u8]) -> (out: Option<Vec<u8>>)
    ensures
        out matches Some(der) ==> spec_pem_contents(text@) == Some(der@),
        out is None ==> spec_pem_contents(text@) is None,
{
    match pem::parse(text) {
        Ok(block) => Some(block.contents().to_vec()),
        Err(_) => None,
    }
}

/// Calls `SecretKey::from_sec1_der` of `p256` and takes the key's bytes.
/// Trusted: the result is a function of the argument, named
/// `spec_sec1_private_scalar`, and a scalar that comes back is 32 bytes long.
#[verifier::external_body]
pub(crate) fn sec1_private_scalar(der: &Vec<u8>) -> (out: Option<Vec<u8>>)
    ensures
        out matches Some(scalar) ==> spec_sec1_private_scalar(der@) == Some(scalar@)
            && scalar@.len() == KEY_LEN,
        out is None ==> spec_sec1_private_scalar(der@) is None,
{
    match p256::SecretKey::from_sec1_der(der.as_slice()) {
        Ok(key) => Some(key.to_bytes().to_vec()),
        Err(_) => None,
    }
}

/// Calls `SecretKey::public_key` of `p256` on the key with the given scalar
/// and encodes the point with compression. Trusted: the result is a function
/// of the argument, named `spec_p256_public_key`, and a key that comes back
/// is 33 bytes long and starts with 2 or 3.
#[verifier::external_body]
pub(crate) fn p256_public_key(scalar: &Vec<u8>) -> (out: Option<Vec<u8>>)
    ensures
        out matches Some(point) ==> spec_p256_public_key(scalar@) == Some(point@) && point@.len()
            == 33 && (point@[0] == 2 || point@[0] == 3),
        out is None ==> spec_p256_public_key(scalar@) is None,
{
    match p256::SecretKey::from_slice(scalar.as_slice()) {
        Ok(key) => Some(
            p256::elliptic_curve::sec1::ToEncodedPoint::to_encoded_point(&key.public_key(), true)
                .as_bytes().to_vec(),
        ),
        Err(_) => None,
    }
}

/// Asks `OsRng` of `rand`, through `try_fill_bytes`, for `n` fresh random
/// bytes. Trusted: only the length of what comes back; `None` where the
/// operating system supplies no randomness.
#[verifier::external_body]
pub(crate) fn random_bytes(n: usize) -> (out: Option<Vec<u8>>)
    ensures
        out matches Some(bytes) ==> bytes@.len() == n,
{
    let mut bytes = vec![0u8; n];
    match rand::RngCore::try_fill_bytes(&mut rand::rngs::OsRng, bytes.as_mut_slice()) {
        Ok(_) => Some(bytes),
        Err(_) => None,
    }
}

} // verus!
