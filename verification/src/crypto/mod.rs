//! Cryptographic building blocks, all from libsodium through `sodiumoxide`:
//! Argon2id key derivation and XChaCha20-Poly1305 authenticated encryption.
pub mod cipher;
pub mod kdf;
pub mod key;

pub use cipher::CipherParams;
pub use kdf::KdfParams;
