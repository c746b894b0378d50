//! What the engine keeps: the state of one connection, and the long-term key
//! of the server.

use vstd::prelude::*;
use crate::crypto::p256_public_key;
use crate::crypto::pem_contents;
use crate::crypto::sec1_private_scalar;
use crate::crypto::spec_p256_public_key;
use crate::crypto::spec_pem_contents;
use crate::crypto::spec_sec1_private_scalar;
use crate::crypto::KEY_LEN;

verus! {

/// Length of a public key in compressed point encoding.
pub const COMPRESSED_POINT_LEN: usize = 33;

/// The state of one connection: its session key, once a handshake has set
/// it.
#[derive(Debug)]
pub struct ConnectionState {
    shared_secret: Option<Vec<u8>>,
}

impl ConnectionState {
    /// The session key, if a handshake has set one.
    pub closed spec fn key(&self) -> Option<Seq<u8>> {
        match self.shared_secret {
            Some(key) => Some(key@),
            None => None,
        }
    }

    /// A session key is 32 bytes long.
    pub open spec fn wf(&self) -> bool {
        self.key() matches Some(key) ==> key.len() == KEY_LEN
    }

    /// The state of a connection that was just accepted: no session key.
    pub fn new() -> (state: Self)
        ensures
            state.key() is None,
            state.wf(),
    {
        ConnectionState { shared_secret: None }
    }

    /// Whether a handshake has set the session key.
    pub fn has_session_key(&self) -> (b: bool)
        ensures
            b == self.key().is_some(),
    {
        self.shared_secret.is_some()
    }

    /// The session key, if a handshake has set one.
    pub fn session_key(&self) -> (k: Option<&Vec<u8>>)
        ensures
            match k {
                Some(key) => self.key() == Some(key@),
                None => self.key() is None,
            },
    {
        self.shared_secret.as_ref()
    }

    /// Sets the session key of a connection that has none.
    pub(crate) fn establish(&mut self, key: Vec<u8>)
        requires
            old(self).key() is None,
            key@.len() == KEY_LEN,
        ensures
            final(self).key() == Some(key@),
            final(self).wf(),
    {
        self.shared_secret = Some(key);
    }
}

/// The long-term key pair of the server: the private scalar and the public
/// key in compressed point encoding. Made once at startup and only read
/// afterwards.
pub struct KasKeyMaterial {
    private_scalar: Vec<u8>,
    public_key: Vec<u8>,
}

/// Whether `private_scalar` and `public_key` have the shape of a key pair: a
/// scalar of 32 bytes, and a compressed point of 33 bytes that starts with 2
/// or 3.
pub open spec fn spec_key_pair_shape(private_scalar: Seq<u8>, public_key: Seq<u8>) -> bool {
    &&& private_scalar.len() == KEY_LEN
    &&& public_key.len() == COMPRESSED_POINT_LEN
    &&& (public_key[0] == 2 || public_key[0] == 3)
}

impl KasKeyMaterial {
    /// The private scalar.
    pub closed spec fn private(&self) -> Seq<u8> {
        self.private_scalar@
    }

    /// The public key in compressed point encoding.
    pub closed spec fn public(&self) -> Seq<u8> {
        self.public_key@
    }

    /// The two parts have the shape of a key pair.
    pub open spec fn wf(&self) -> bool {
        spec_key_pair_shape(self.private(), self.public())
    }

    /// Takes the two parts of a loaded key pair, if they have the shape of
    /// one.
    pub fn new(private_scalar: Vec<u8>, public_key: Vec<u8>) -> (r: Option<Self>)
        ensures
            r.is_some() == spec_key_pair_shape(private_scalar@, public_key@),
            r matches Some(material) ==> material.wf() && material.private() == private_scalar@
                && material.public() == public_key@,
    {
        if private_scalar.len() == KEY_LEN && public_key.len() == COMPRESSED_POINT_LEN && (
        public_key[0] == 2 || public_key[0] == 3) {
            Some(KasKeyMaterial { private_scalar: private_scalar, public_key: public_key })
        } else {
            None
        }
    }

    /// The public key in compressed point encoding.
    pub fn public_key(&self) -> (k: &Vec<u8>)
        ensures
            k@ == self.public(),
    {
        &self.public_key
    }

    /// The private scalar.
    pub(crate) fn private_scalar(&self) -> (k: &Vec<u8>)
        ensures
            k@ == self.private(),
    {
        &self.private_scalar
    }
}

/// The key pair that a PEM text holds: the private scalar of the SEC1 key
/// in its first block, and the public key of that scalar.
pub open spec fn spec_load_key_material(text: Seq<u8>) -> Option<(Seq<u8>, Seq<u8>)> {
    match spec_pem_contents(text) {
        None => None,
        Some(der) => match spec_sec1_private_scalar(der) {
            None => None,
            Some(scalar) => match spec_p256_public_key(scalar) {
                None => None,
                Some(point) => Some((scalar, point)),
            },
        },
    }
}

/// Loads the long-term key pair from the text of a PEM file. Where the text
/// holds no key there is no key material, and the server runs without.
pub fn load_key_material(pem_text: &[u8]) -> (r: Option<KasKeyMaterial>)
    ensures
        match spec_load_key_material(pem_text@) {
            Some((scalar, point)) => r matches Some(material) && material.wf()
                && material.private() == scalar && material.public() == point,
            None => r is None,
        },
{
    let der = pem_contents(pem_text)?;
    let scalar = sec1_private_scalar(&der)?;
    let point = p256_public_key(&scalar)?;
    KasKeyMaterial::new(scalar, point)
}

} // verus!
