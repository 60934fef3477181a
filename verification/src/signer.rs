//! Message authentication: a keyed tag over bytes, and its check.

use hmac::{Hmac, Mac};
use sha2::Sha256;
use vstd::prelude::*;

verus! {

/// The HMAC-SHA256 tag of `data` under `key`.
pub uninterp spec fn hmac_sha256(key: Seq<u8>, data: Seq<u8>) -> Seq<u8>;

/// `Hmac::<Sha256>::new_from_slice`: sets the algorithm up with `key`. It
/// takes a key of any length: a long one is hashed first, a short one
/// padded.
#[verifier::external_body]
fn hmac_try_key(key: &[u8]) -> (r: Result<(), String>)
    ensures
        r is Ok,
{
    match Hmac::<Sha256>::new_from_slice(key) {
        Ok(_) => Ok(()),
        Err(e) => Err(e.to_string()),
    }
}

/// `Mac::finalize` after `Mac::update`: the tag of `data` under `key`,
/// which is as long as a SHA-256 digest, 32 bytes.
#[verifier::external_body]
fn hmac_tag(key: &[u8], data: &[u8]) -> (r: Result<Vec<u8>, String>)
    ensures
        r is Ok,
        r matches Ok(t) ==> t@ == hmac_sha256(key@, data@),
        r matches Ok(t) ==> t@.len() == 32,
{
    match Hmac::<Sha256>::new_from_slice(key) {
        Ok(mut mac) => {
            mac.update(data);
            Ok(mac.finalize().into_bytes().to_vec())
        },
        Err(e) => Err(e.to_string()),
    }
}

/// `Mac::verify_slice` after `Mac::update`: whether `tag` is, byte for
/// byte and in length, the tag of `data` under `key`. The bytes are
/// compared in constant time.
#[verifier::external_body]
fn hmac_check(key: &[u8], data: &[u8], tag: &[u8]) -> (r: Result<bool, String>)
    ensures
        r is Ok,
        r matches Ok(b) ==> b == (tag@ == hmac_sha256(key@, data@)),
{
    match Hmac::<Sha256>::new_from_slice(key) {
        Ok(mut mac) => {
            mac.update(data);
            Ok(mac.verify_slice(tag).is_ok())
        },
        Err(e) => Err(e.to_string()),
    }
}

/// Why a signer could not be made or used.
#[derive(Debug)]
pub enum SignerError {
    InvalidKey(String),
}

impl SignerError {
    /// The words that go with the error.
    pub open spec fn text(self) -> Seq<char> {
        match self {
            SignerError::InvalidKey(m) => m@,
        }
    }

    /// The words that go with the error.
    pub fn to_string(&self) -> (r: String)
        ensures
            r@ == self.text(),
    {
        match self {
            SignerError::InvalidKey(m) => m.clone(),
        }
    }
}

/// A keyed tag over bytes. One signer gives one message one tag, or none
/// to any message.
pub trait Signer: Send + Sync {
    /// The tag of `data`; `None` where the signer cannot work with its key.
    /// A signer that does not say what its tags are is taken to give none.
    open spec fn tag(&self, data: Seq<u8>) -> Option<Seq<u8>> {
        None
    }

    /// Computes the tag of `data`.
    fn sign(&self, data: &[u8]) -> (r: Result<Vec<u8>, SignerError>)
        ensures
            match self.tag(data@) {
                Some(t) => r matches Ok(m) && m@ == t,
                None => r is Err,
            },
    ;

    /// Tells whether `signature` is the tag of `data`.
    fn verify(&self, data: &[u8], signature: &[u8]) -> (r: Result<bool, SignerError>)
        ensures
            match self.tag(data@) {
                Some(t) => r matches Ok(b) && b == (signature@ == t),
                None => r is Err,
            },
    ;
}

/// HMAC-SHA256 under a secret key that is never empty.
pub struct HMACSigner {
    key: String,
}

impl HMACSigner {
    #[verifier::type_invariant]
    spec fn key_is_present(&self) -> bool {
        self.key@.len() > 0
    }

    /// The bytes of the secret key.
    pub closed spec fn secret(&self) -> Seq<u8> {
        vstd::utf8::encode_utf8(self.key@)
    }

    /// Which keys make a signer: all but the empty one.
    pub open spec fn key_is_valid(key: Seq<char>) -> bool {
        key.len() > 0
    }

    /// A signer under `key`.
    pub fn new(key: String) -> (r: Result<Self, SignerError>)
        ensures
            r is Ok <==> Self::key_is_valid(key@),
            r matches Ok(s) ==> s.secret() == vstd::utf8::encode_utf8(key@),
    {
        if key.as_str().is_empty() {
            return Err(SignerError::InvalidKey("Key cannot be empty".to_owned()));
        }
        match hmac_try_key(key.as_str().as_bytes()) {
            Ok(()) => Ok(Self { key }),
            Err(e) => Err(SignerError::InvalidKey(e)),
        }
    }
}

impl Signer for HMACSigner {
    open spec fn tag(&self, data: Seq<u8>) -> Option<Seq<u8>> {
        Some(hmac_sha256(self.secret(), data))
    }

    fn sign(&self, data: &[u8]) -> (r: Result<Vec<u8>, SignerError>)
        ensures
            r matches Ok(m) && m@.len() == 32,
    {
        match hmac_tag(self.key.as_str().as_bytes(), data) {
            Ok(t) => Ok(t),
            Err(e) => Err(SignerError::InvalidKey(e)),
        }
    }

    fn verify(&self, data: &[u8], signature: &[u8]) -> (r: Result<bool, SignerError>) {
        match hmac_check(self.key.as_str().as_bytes(), data, signature) {
            Ok(b) => Ok(b),
            Err(e) => Err(SignerError::InvalidKey(e)),
        }
    }
}

} // verus!
