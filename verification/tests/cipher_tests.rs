use passm3nage::crypto::cipher::{decrypt, encrypt, generate_nonce, CipherParams};
use passm3nage::crypto::key::SecretKey;
use passm3nage::Error;

#[test]
fn test_generate_nonce_randomness() {
    let nonce1 = generate_nonce();
    let nonce2 = generate_nonce();
    assert_ne!(nonce1, nonce2, "Nonces should be random");
}

#[test]
fn test_encrypt_decrypt_roundtrip() {
    let plaintext = b"Hello, World!";
    let aad = b"header_data";
    let key = SecretKey::new([1u8; 32]);

    let (ciphertext, nonce) = encrypt(plaintext, &key, aad).unwrap();
    assert_ne!(&ciphertext[..plaintext.len()], plaintext);

    let decrypted = decrypt(&ciphertext, &key, &nonce, aad).unwrap();
    assert_eq!(decrypted, plaintext);
}

#[test]
fn test_decrypt_fails_wrong_key() {
    let plaintext = b"Secret message";
    let aad = b"header";
    let key1 = SecretKey::new([1u8; 32]);
    let key2 = SecretKey::new([2u8; 32]);

    let (ciphertext, nonce) = encrypt(plaintext, &key1, aad).unwrap();
    let result = decrypt(&ciphertext, &key2, &nonce, aad);

    assert!(result.is_err());
}

#[test]
fn test_decrypt_fails_wrong_aad() {
    let plaintext = b"Secret";
    let aad1 = b"header1";
    let aad2 = b"header2";
    let key = SecretKey::new([1u8; 32]);

    let (ciphertext, nonce) = encrypt(plaintext, &key, aad1).unwrap();
    let result = decrypt(&ciphertext, &key, &nonce, aad2);

    assert!(result.is_err());
}

#[test]
fn test_decrypt_fails_tampered_ciphertext() {
    let plaintext = b"Data";
    let aad = b"aad";
    let key = SecretKey::new([1u8; 32]);

    let (mut ciphertext, nonce) = encrypt(plaintext, &key, aad).unwrap();

    if !ciphertext.is_empty() {
        ciphertext[0] ^= 0x01;
    }

    let result = decrypt(&ciphertext, &key, &nonce, aad);
    assert!(result.is_err());
}

#[test]
fn test_decrypt_fails_wrong_nonce() {
    let plaintext = b"Message";
    let aad = b"aad";
    let key = SecretKey::new([1u8; 32]);

    let (ciphertext, mut nonce) = encrypt(plaintext, &key, aad).unwrap();

    nonce[0] ^= 0x01;

    let result = decrypt(&ciphertext, &key, &nonce, aad);
    assert!(result.is_err());
}

#[test]
fn test_large_payload_encryption() {
    let plaintext = vec![42u8; 1_000_000];
    let aad = b"header";
    let key = SecretKey::new([1u8; 32]);

    let (ciphertext, nonce) = encrypt(&plaintext, &key, aad).unwrap();
    let decrypted = decrypt(&ciphertext, &key, &nonce, aad).unwrap();

    assert_eq!(decrypted, plaintext);
}

#[test]
fn test_empty_plaintext() {
    let plaintext = b"";
    let aad = b"header";
    let key = SecretKey::new([1u8; 32]);

    let (ciphertext, nonce) = encrypt(plaintext, &key, aad).unwrap();
    let decrypted = decrypt(&ciphertext, &key, &nonce, aad).unwrap();

    assert_eq!(decrypted, plaintext);
}

#[test]
fn test_empty_aad() {
    let plaintext = b"data";
    let aad = b"";
    let key = SecretKey::new([1u8; 32]);

    let (ciphertext, nonce) = encrypt(plaintext, &key, aad).unwrap();
    let decrypted = decrypt(&ciphertext, &key, &nonce, aad).unwrap();

    assert_eq!(decrypted, plaintext);
}

#[test]
fn test_different_plaintext_different_ciphertext() {
    let key = SecretKey::new([1u8; 32]);
    let aad = b"aad";

    let (ct1, nonce1) = encrypt(b"plaintext1", &key, aad).unwrap();
    let (ct2, nonce2) = encrypt(b"plaintext2", &key, aad).unwrap();

    assert_ne!(ct1, ct2);
    assert_ne!(nonce1, nonce2);
}

#[test]
fn ciphertext_carries_the_tag() {
    let key = SecretKey::new([7u8; 32]);
    let (ct, _) = encrypt(b"abc", &key, b"x").unwrap();
    assert_eq!(ct.len(), 3 + 16);
}

#[test]
fn short_ciphertext_is_refused() {
    let key = SecretKey::new([7u8; 32]);
    let r = decrypt(&[0u8; 15], &key, &[0u8; 24], b"");
    assert!(matches!(r, Err(Error::DecryptionFailed)));
}

#[test]
fn cipher_params_default() {
    assert_eq!(CipherParams::default().cipher_id, 1);
}

#[test]
fn secret_key_keeps_its_bytes() {
    let mut bytes = [0u8; 32];
    for (i, b) in bytes.iter_mut().enumerate() {
        *b = i as u8;
    }
    assert_eq!(SecretKey::new(bytes).expose(), bytes);
}
