//! Authenticated encryption with XChaCha20-Poly1305 (libsodium's
//! `crypto_aead_xchacha20poly1305_ietf`): a fresh random 24-byte nonce per
//! message, and additional authenticated data bound to the ciphertext.
use crate::crypto::kdf::random_bytes;
use crate::crypto::key::{key_bytes, SecretKey};
use crate::errors::{Error, Result};

use sodiumoxide::crypto::aead::xchacha20poly1305_ietf;
use vstd::prelude::*;

verus! {

/// Cipher parameters; only XChaCha20-Poly1305 (identifier 1) exists.
#[derive(Debug, Clone)]
pub struct CipherParams {
    /// The cipher identifier.
    pub cipher_id: u8,
}

impl CipherParams {
    /// The parameters of XChaCha20-Poly1305.
    pub fn default() -> (p: Self)
        ensures
            p.cipher_id == 1,
    {
        CipherParams { cipher_id: 0x01 }
    }
}

/// The ciphertext (with its 16-byte Poly1305 tag appended) that
/// XChaCha20-Poly1305 produces for a message, additional data, nonce and key.
pub uninterp spec fn xchacha_seal(msg: Seq<u8>, aad: Seq<u8>, nonce: Seq<u8>, key: Seq<u8>) -> Seq<u8>;

/// What XChaCha20-Poly1305 decryption gives for a ciphertext, additional
/// data, nonce and key: the message when the tag verifies, `None` otherwise.
pub uninterp spec fn xchacha_open(ct: Seq<u8>, aad: Seq<u8>, nonce: Seq<u8>, key: Seq<u8>) -> Option<
    Seq<u8>,
>;

/// Calls `xchacha20poly1305_ietf::seal` with the additional data given. The
/// ciphertext is the message's length plus the 16-byte tag, and opening it
/// with the same data, nonce and key gives the message back.
#[verifier::external_body]
fn aead_seal(msg: &[u8], aad: &[u8], nonce: &[u8; 24], key: &[u8; 32]) -> (c: Vec<u8>)
    requires
        msg.len() + 16 <= usize::MAX,
    ensures
        c@ == xchacha_seal(msg@, aad@, nonce@, key@),
        c.len() == msg.len() + 16,
        xchacha_open(c@, aad@, nonce@, key@) == Some(msg@),
{
    xchacha20poly1305_ietf::seal(
        msg,
        Some(aad),
        &xchacha20poly1305_ietf::Nonce(*nonce),
        &xchacha20poly1305_ietf::Key(*key),
    )
}

/// Calls `xchacha20poly1305_ietf::open` with the additional data given. It
/// returns the message exactly when the tag verifies; a ciphertext shorter
/// than the tag never does.
#[verifier::external_body]
fn aead_open(ct: &[u8], aad: &[u8], nonce: &[u8; 24], key: &[u8; 32]) -> (r: Option<Vec<u8>>)
    ensures
        r is Some <==> xchacha_open(ct@, aad@, nonce@, key@) is Some,
        r matches Some(m) ==> xchacha_open(ct@, aad@, nonce@, key@) == Some(m@),
        ct.len() < 16 ==> r is None,
{
    match xchacha20poly1305_ietf::open(
        ct,
        Some(aad),
        &xchacha20poly1305_ietf::Nonce(*nonce),
        &xchacha20poly1305_ietf::Key(*key),
    ) {
        Ok(m) => Some(m),
        Err(()) => None,
    }
}

/// A fresh random 24-byte nonce.
pub fn generate_nonce() -> [u8; 24] {
    let bytes = random_bytes(24);
    let mut nonce = [0u8; 24];
    let mut i: usize = 0;
    while i < 24
        invariant
            bytes.len() == 24,
            0 <= i <= 24,
        decreases 24 - i,
    {
        nonce[i] = bytes[i];
        i = i + 1;
    }
    nonce
}

/// `ct` with `nonce` is the encryption of `plaintext` under `key` and
/// `aad`: the sealed text, 16 bytes (the tag) longer than the plaintext, and
/// it opens back to the plaintext.
pub open spec fn encrypts_to(plaintext: Seq<u8>, aad: Seq<u8>, key: Seq<u8>, ct: Seq<u8>, nonce: Seq<u8>) -> bool {
    &&& ct == xchacha_seal(plaintext, aad, nonce, key)
    &&& ct.len() == plaintext.len() + 16
    &&& xchacha_open(ct, aad, nonce, key) == Some(plaintext)
}

/// Encrypts `plaintext` under `key` with a fresh random nonce, binding
/// `aad` to the ciphertext. Returns the ciphertext (tag included) and the
/// nonce, which must be stored with it; decrypting them with the same key
/// and data gives the plaintext back.
pub fn encrypt(plaintext: &[u8], key: &SecretKey, aad: &[u8]) -> (res: Result<
    (Vec<u8>, [u8; 24]),
>)
    requires
        plaintext.len() + 16 <= usize::MAX,
    ensures
        res matches Ok((c, n)) && encrypts_to(plaintext@, aad@, key_bytes(*key), c@, n@),
{
    let nonce = generate_nonce();
    let k = key.expose();
    let ciphertext = aead_seal(plaintext, aad, &nonce, &k);
    Ok((ciphertext, nonce))
}

/// Decrypts `ciphertext` under `key`, `nonce` and `aad`. The tag is checked
/// first: any change to the ciphertext, key, nonce or data that makes it
/// fail gives `DecryptionFailed` and no plaintext.
pub fn decrypt(ciphertext: &[u8], key: &SecretKey, nonce: &[u8; 24], aad: &[u8]) -> (res:
    Result<Vec<u8>>)
    ensures
        match xchacha_open(ciphertext@, aad@, nonce@, key_bytes(*key)) {
            Some(m) => res matches Ok(v) && v@ == m,
            None => res matches Err(Error::DecryptionFailed),
        },
{
    let k = key.expose();
    match aead_open(ciphertext, aad, nonce, &k) {
        Some(m) => Ok(m),
        None => Err(Error::DecryptionFailed),
    }
}

/// Law: what `encrypt` returns decrypts, under the same key, nonce and
/// additional data, to the plaintext: `decrypt` gives `Ok` of it.
pub proof fn lemma_encrypt_decrypt_roundtrip(plaintext: Seq<u8>, aad: Seq<u8>, key: Seq<u8>, ct: Seq<u8>, nonce: Seq<u8>)
    requires
        encrypts_to(plaintext, aad, key, ct, nonce),
    ensures
        xchacha_open(ct, aad, nonce, key) == Some(plaintext),
{
}

} // verus!
