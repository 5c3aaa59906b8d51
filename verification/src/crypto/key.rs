//! The 32-byte key, held in `secrecy::Secret` so that it is wiped from
//! memory when dropped.
use secrecy::{ExposeSecret, Secret};
use vstd::prelude::*;

verus! {

/// A 32-byte secret key, kept in a `secrecy::Secret<[u8; 32]>`, which
/// zeroes it when it is dropped.
#[verifier::external_body]
pub struct SecretKey {
    inner: Secret<[u8; 32]>,
}

/// The bytes that a key holds.
pub uninterp spec fn key_bytes(k: SecretKey) -> Seq<u8>;

impl SecretKey {
    /// Wraps `bytes` with `Secret::new`; the key then holds exactly those
    /// bytes.
    #[verifier::external_body]
    pub fn new(bytes: [u8; 32]) -> (k: SecretKey)
        ensures
            key_bytes(k) == bytes@,
    {
        SecretKey { inner: Secret::new(bytes) }
    }

    /// Copies out the key through `ExposeSecret::expose_secret`: the bytes
    /// the key was made with.
    #[verifier::external_body]
    pub fn expose(&self) -> (bytes: [u8; 32])
        ensures
            bytes@ == key_bytes(*self),
    {
        *self.inner.expose_secret()
    }
}

} // verus!
