use passm3nage::session::hexfield::{decode_field, decode_nonce, decode_salt, encode_field, HexFault};

#[test]
fn hex_round_trip() {
    let bytes: Vec<u8> = (0u8..=255).collect();
    let text = encode_field(&bytes);
    assert_eq!(&text[..8], "00010203");
    assert_eq!(decode_field(&text).unwrap(), bytes);
}

#[test]
fn hex_faults() {
    assert_eq!(decode_field("abc"), Err(HexFault::OddLength));
    assert_eq!(
        decode_field("0g"),
        Err(HexFault::InvalidHexCharacter { c: 'g', index: 1 })
    );
    assert_eq!(decode_field("ABcd").unwrap(), vec![0xab, 0xcd]);
    assert_eq!(decode_salt("00"), Err(HexFault::WrongLength { expected: 16, got: 1 }));
    assert_eq!(decode_salt(&"01".repeat(16)).unwrap(), [1u8; 16]);
    assert_eq!(decode_nonce(&"ff".repeat(24)).unwrap(), [0xffu8; 24]);
    assert_eq!(decode_nonce(&"ff".repeat(16)), Err(HexFault::WrongLength { expected: 24, got: 16 }));
}
