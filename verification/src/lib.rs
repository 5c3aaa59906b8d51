//! PassM3nage: an offline password vault. The library holds the vault's
//! rules: key derivation and authenticated encryption of records, the vault
//! header format, entry validation, and the decisions of the interactive
//! session.

pub mod clipboard;
pub mod config;
pub mod crypto;
pub mod errors;
pub mod session;
pub mod text;
pub mod vault;

pub use config::Config;
pub use errors::{Error, Result};
