use passm3nage::clipboard::copy_password;
use passm3nage::Error;

#[test]
fn fatal_errors() {
    assert!(Error::EncryptionFailed.is_fatal());
    assert!(Error::DecryptionFailed.is_fatal());
    assert!(Error::KdfFailed.is_fatal());
    assert!(Error::InvalidVaultFormat.is_fatal());
    assert!(Error::UnsupportedVersion.is_fatal());
    assert!(Error::InvalidMagic.is_fatal());
    assert!(Error::CorruptedHeader.is_fatal());
    assert!(Error::PayloadTooLarge.is_fatal());
    assert!(!Error::WriteFailed.is_fatal());
    assert!(!Error::EntryNotFound.is_fatal());
    assert!(!Error::InvalidArgument("x".to_string()).is_fatal());
}

#[test]
fn user_messages() {
    assert_eq!(
        Error::DecryptionFailed.user_message(),
        "Wrong password or vault file is corrupted. Try again."
    );
    assert_eq!(
        Error::InvalidVaultFormat.user_message(),
        "Vault file is corrupted or not a valid PassM3nage vault."
    );
    assert_eq!(Error::InvalidMagic.user_message(), "This file is not a PassM3nage vault.");
    assert_eq!(Error::UnsupportedVersion.user_message(), "This vault version is not supported.");
    assert_eq!(Error::KdfFailed.user_message(), "Key derivation failed");
    assert_eq!(
        Error::InvalidArgument("bad".to_string()).user_message(),
        "Invalid argument: bad"
    );
    assert_eq!(Error::TerminalError("tty".to_string()).message(), "Terminal error: tty");
    assert_eq!(Error::Internal("x".to_string()).message(), "Internal error: x");
    assert_eq!(Error::PayloadTooLarge.message(), "Payload length exceeds maximum");
    assert_eq!(
        Error::ReadFailed(std::io::Error::new(std::io::ErrorKind::Other, "io")).message(),
        "Failed to read vault file"
    );
}

#[test]
fn clipboard_copy_succeeds() {
    assert!(copy_password("secret", 30).is_ok());
}
