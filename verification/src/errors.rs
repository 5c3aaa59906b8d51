//! The library's error type. Every failure is reported and nothing is
//! recovered from a cryptographic failure.
use vstd::prelude::*;

verus! {

/// `std::io::Error`, carried by `Error::ReadFailed`.
#[verifier::external_type_specification]
#[verifier::external_body]
pub struct ExIoError(std::io::Error);

/// The errors of the vault.
#[derive(Debug)]
pub enum Error {
    /// Encryption failed: invalid key or parameters.
    EncryptionFailed,
    /// Decryption failed: wrong password or tampered vault.
    DecryptionFailed,
    /// Key derivation failed.
    KdfFailed,
    /// The vault file is not in the vault format.
    InvalidVaultFormat,
    /// The vault version is not supported.
    UnsupportedVersion,
    /// The file does not start with the vault's magic bytes.
    InvalidMagic,
    /// The vault header is truncated.
    CorruptedHeader,
    /// The payload is larger than a vault may hold.
    PayloadTooLarge,
    /// Reading the vault file failed.
    ReadFailed(std::io::Error),
    /// Writing the vault file failed.
    WriteFailed,
    /// The atomic replacement of the vault file failed.
    AtomicWriteFailed,
    /// The decrypted payload is not valid JSON.
    InvalidPayload,
    /// The decrypted payload does not follow the vault schema.
    InvalidSchema,
    /// An entry has an empty site.
    EmptySite,
    /// No entry matches.
    EntryNotFound,
    /// The vault is locked.
    VaultLocked,
    /// The vault is already unlocked.
    VaultAlreadyUnlocked,
    /// The clipboard could not be used.
    ClipboardError,
    /// The terminal failed.
    TerminalError(String),
    /// An argument was refused.
    InvalidArgument(String),
    /// An internal failure.
    Internal(String),
}

/// The result type of the vault's operations.
pub type Result<T> = core::result::Result<T, Error>;

/// The message that describes an error (its `Display` text).
pub open spec fn error_text(e: Error) -> Seq<char> {
    match e {
        Error::EncryptionFailed => "Encryption failed: invalid key or parameters"@,
        Error::DecryptionFailed => "Decryption failed: wrong password or vault tampered"@,
        Error::KdfFailed => "Key derivation failed"@,
        Error::InvalidVaultFormat => "Invalid vault format: corrupted file"@,
        Error::UnsupportedVersion => "Unsupported vault version"@,
        Error::InvalidMagic => "Invalid magic bytes"@,
        Error::CorruptedHeader => "Corrupted vault header"@,
        Error::PayloadTooLarge => "Payload length exceeds maximum"@,
        Error::ReadFailed(_) => "Failed to read vault file"@,
        Error::WriteFailed => "Failed to write vault file"@,
        Error::AtomicWriteFailed => "Atomic file operation failed"@,
        Error::InvalidPayload => "Invalid JSON in vault payload"@,
        Error::InvalidSchema => "Vault payload schema mismatch"@,
        Error::EmptySite => "Invalid entry: site cannot be empty"@,
        Error::EntryNotFound => "Entry not found"@,
        Error::VaultLocked => "Vault is locked"@,
        Error::VaultAlreadyUnlocked => "Vault is already unlocked"@,
        Error::ClipboardError => "Clipboard access failed"@,
        Error::TerminalError(s) => "Terminal error: "@ + s@,
        Error::InvalidArgument(s) => "Invalid argument: "@ + s@,
        Error::Internal(s) => "Internal error: "@ + s@,
    }
}

/// The message shown to the user for an error: a plain sentence for the
/// errors a user meets, the error's own message otherwise.
pub open spec fn user_text(e: Error) -> Seq<char> {
    match e {
        Error::DecryptionFailed => "Wrong password or vault file is corrupted. Try again."@,
        Error::InvalidVaultFormat => "Vault file is corrupted or not a valid PassM3nage vault."@,
        Error::InvalidMagic => "This file is not a PassM3nage vault."@,
        Error::UnsupportedVersion => "This vault version is not supported."@,
        _ => error_text(e),
    }
}

fn prefixed(prefix: &str, s: &String) -> (r: String)
    ensures
        r@ == prefix@ + s@,
{
    prefix.to_string().concat(s.as_str())
}

impl Error {
    /// Whether the error must block further operations (fail closed): the
    /// cryptographic failures and every vault format error (malformed vault,
    /// unsupported version, bad magic bytes, corrupted header, payload too
    /// large).
    pub fn is_fatal(&self) -> (b: bool)
        ensures
            b == (self is EncryptionFailed || self is DecryptionFailed || self is KdfFailed
                || self is InvalidVaultFormat || self is UnsupportedVersion || self is InvalidMagic
                || self is CorruptedHeader || self is PayloadTooLarge),
    {
        match self {
            Error::EncryptionFailed | Error::DecryptionFailed | Error::KdfFailed
            | Error::InvalidVaultFormat | Error::UnsupportedVersion | Error::InvalidMagic
            | Error::CorruptedHeader | Error::PayloadTooLarge => true,
            _ => false,
        }
    }

    /// The error's message.
    pub fn message(&self) -> (s: String)
        ensures
            s@ == error_text(*self),
    {
        match self {
            Error::EncryptionFailed => "Encryption failed: invalid key or parameters".to_string(),
            Error::DecryptionFailed => "Decryption failed: wrong password or vault tampered".to_string(),
            Error::KdfFailed => "Key derivation failed".to_string(),
            Error::InvalidVaultFormat => "Invalid vault format: corrupted file".to_string(),
            Error::UnsupportedVersion => "Unsupported vault version".to_string(),
            Error::InvalidMagic => "Invalid magic bytes".to_string(),
            Error::CorruptedHeader => "Corrupted vault header".to_string(),
            Error::PayloadTooLarge => "Payload length exceeds maximum".to_string(),
            Error::ReadFailed(_) => "Failed to read vault file".to_string(),
            Error::WriteFailed => "Failed to write vault file".to_string(),
            Error::AtomicWriteFailed => "Atomic file operation failed".to_string(),
            Error::InvalidPayload => "Invalid JSON in vault payload".to_string(),
            Error::InvalidSchema => "Vault payload schema mismatch".to_string(),
            Error::EmptySite => "Invalid entry: site cannot be empty".to_string(),
            Error::EntryNotFound => "Entry not found".to_string(),
            Error::VaultLocked => "Vault is locked".to_string(),
            Error::VaultAlreadyUnlocked => "Vault is already unlocked".to_string(),
            Error::ClipboardError => "Clipboard access failed".to_string(),
            Error::TerminalError(s) => prefixed("Terminal error: ", s),
            Error::InvalidArgument(s) => prefixed("Invalid argument: ", s),
            Error::Internal(s) => prefixed("Internal error: ", s),
        }
    }

    /// The message shown to the user, without technical details.
    pub fn user_message(&self) -> (s: String)
        ensures
            s@ == user_text(*self),
    {
        match self {
            Error::DecryptionFailed => "Wrong password or vault file is corrupted. Try again.".to_string(),
            Error::InvalidVaultFormat => "Vault file is corrupted or not a valid PassM3nage vault.".to_string(),
            Error::InvalidMagic => "This file is not a PassM3nage vault.".to_string(),
            Error::UnsupportedVersion => "This vault version is not supported.".to_string(),
            _ => self.message(),
        }
    }
}

} // verus!
