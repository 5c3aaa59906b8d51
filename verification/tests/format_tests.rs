use passm3nage::vault::format::{
    compute_aad, magic, VaultHeader, CIPHER_XC20P1305, HEADER_SIZE, VERSION,
};
use passm3nage::Error;

fn header(payload_length: u32) -> VaultHeader {
    VaultHeader {
        magic: magic(),
        version: VERSION,
        cipher_id: CIPHER_XC20P1305,
        kdf_id: 0x01,
        argon_memory: 65536,
        argon_time: 3,
        argon_lanes: 4,
        salt: [0u8; 16],
        nonce: [0u8; 24],
        payload_length,
    }
}

#[test]
fn test_header_serialize_deserialize() {
    let header = VaultHeader {
        magic: magic(),
        version: VERSION,
        cipher_id: CIPHER_XC20P1305,
        kdf_id: 0x01,
        argon_memory: 65536,
        argon_time: 3,
        argon_lanes: 4,
        salt: [1u8; 16],
        nonce: [2u8; 24],
        payload_length: 1000,
    };

    let serialized = header.serialize();
    let (deserialized, size) = VaultHeader::deserialize(&serialized).unwrap();

    assert_eq!(header.magic, deserialized.magic);
    assert_eq!(header.version, deserialized.version);
    assert_eq!(header.argon_memory, deserialized.argon_memory);
    assert_eq!(header.argon_time, deserialized.argon_time);
    assert_eq!(header.argon_lanes, deserialized.argon_lanes);
    assert_eq!(header.salt, deserialized.salt);
    assert_eq!(header.nonce, deserialized.nonce);
    assert_eq!(header.payload_length, deserialized.payload_length);
    assert_eq!(size, 68);
}

#[test]
fn test_invalid_magic_bytes() {
    let mut data = vec![0u8; 68];
    data[0] = 0xFF;
    let result = VaultHeader::deserialize(&data);
    assert!(result.is_err());
}

#[test]
fn test_unsupported_version() {
    let header = VaultHeader {
        magic: magic(),
        version: 999,
        cipher_id: CIPHER_XC20P1305,
        kdf_id: 0x01,
        argon_memory: 65536,
        argon_time: 3,
        argon_lanes: 4,
        salt: [0u8; 16],
        nonce: [0u8; 24],
        payload_length: 100,
    };

    assert!(header.validate().is_err());
}

#[test]
fn test_header_size() {
    let header = header(0);
    let serialized = header.serialize();
    assert_eq!(serialized.len(), 68);
}

#[test]
fn test_truncated_header() {
    let data = vec![0u8; 50];
    let result = VaultHeader::deserialize(&data);
    assert!(result.is_err());
}

#[test]
fn test_argon_memory_too_low() {
    let mut header = header(100);
    header.argon_memory = 1024;
    assert!(header.validate().is_err());
}

#[test]
fn test_payload_length_too_large() {
    let header = header(u32::MAX);
    assert!(header.validate().is_err());
}

#[test]
fn header_bytes_layout() {
    let mut h = header(0x0102_0304);
    h.argon_memory = 0x0A0B_0C0D;
    h.salt = [0x11; 16];
    h.nonce = [0x22; 24];
    let b = h.serialize();
    assert_eq!(&b[0..8], b"PASSM3NE");
    assert_eq!(&b[8..10], &[1, 0]);
    assert_eq!(b[10], 1);
    assert_eq!(b[11], 1);
    assert_eq!(&b[12..16], &[0x0D, 0x0C, 0x0B, 0x0A]);
    assert_eq!(&b[16..20], &[3, 0, 0, 0]);
    assert_eq!(&b[20..24], &[4, 0, 0, 0]);
    assert_eq!(&b[24..40], &[0x11; 16]);
    assert_eq!(&b[40..64], &[0x22; 24]);
    assert_eq!(&b[64..68], &[4, 3, 2, 1]);
    assert_eq!(compute_aad(&h), b);
    assert_eq!(HEADER_SIZE, 68);
}

#[test]
fn header_errors_name_the_fault() {
    assert!(matches!(VaultHeader::deserialize(&[0u8; 67]), Err(Error::CorruptedHeader)));
    assert!(matches!(VaultHeader::deserialize(&[0u8; 68]), Err(Error::InvalidMagic)));
    let mut h = header(1);
    h.version = 2;
    assert!(matches!(h.validate(), Err(Error::UnsupportedVersion)));
    let mut h = header(1);
    h.cipher_id = 2;
    assert!(matches!(h.validate(), Err(Error::InvalidArgument(ref m)) if m == "Unsupported cipher"));
    let mut h = header(1);
    h.kdf_id = 0;
    assert!(matches!(h.validate(), Err(Error::InvalidArgument(ref m)) if m == "Unsupported KDF"));
    let mut h = header(1);
    h.argon_memory = 8191;
    assert!(matches!(h.validate(), Err(Error::InvalidArgument(ref m)) if m == "Argon2id memory too low"));
    let mut h = header(1);
    h.argon_time = 0;
    assert!(matches!(h.validate(), Err(Error::InvalidArgument(ref m)) if m == "Argon2id time cost too low"));
    let mut h = header(1);
    h.argon_lanes = 0;
    assert!(matches!(h.validate(), Err(Error::InvalidArgument(ref m)) if m == "Argon2id lanes too low"));
    assert!(matches!(header(104857601).validate(), Err(Error::PayloadTooLarge)));
    assert!(header(104857600).validate().is_ok());
}

#[test]
fn deserialize_reads_only_the_header() {
    let h = header(5);
    let mut data = h.serialize();
    data.extend_from_slice(b"payload after the header");
    let (back, used) = VaultHeader::deserialize(&data).unwrap();
    assert_eq!(used, 68);
    assert_eq!(back.serialize(), &data[..68]);
    // an invalid header in well-formed bytes is refused after parsing
    let mut bad = h.serialize();
    bad[64..68].copy_from_slice(&u32::MAX.to_le_bytes());
    assert!(matches!(VaultHeader::deserialize(&bad), Err(Error::PayloadTooLarge)));
}

#[test]
fn new_header_uses_current_identifiers() {
    let h = VaultHeader::new(8192, 1, 1, [9u8; 16], [8u8; 24], 10).unwrap();
    assert_eq!(h.magic, *b"PASSM3NE");
    assert_eq!(h.version, 1);
    assert_eq!(h.cipher_id, 1);
    assert_eq!(h.kdf_id, 1);
    assert_eq!(h.salt, [9u8; 16]);
    assert!(matches!(VaultHeader::new(8192, 0, 1, [0; 16], [0; 24], 0), Err(Error::InvalidArgument(_))));
    assert!(matches!(VaultHeader::new(8192, 1, 1, [0; 16], [0; 24], u32::MAX), Err(Error::PayloadTooLarge)));
}
