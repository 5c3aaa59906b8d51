use passm3nage::crypto::kdf::{derive_key, generate_salt, KdfParams};
use passm3nage::Error;

fn fast_params() -> KdfParams {
    KdfParams {
        memory_kb: 8192,
        time_cost: 1,
        parallelism: 1,
    }
}

#[test]
fn test_generate_salt_randomness() {
    let salt1 = generate_salt();
    let salt2 = generate_salt();
    assert_ne!(salt1, salt2, "Salts should be random");
}

#[test]
fn test_derive_key_deterministic() {
    let password = b"test_password";
    let salt = [1u8; 16];
    let params = fast_params();

    let key1 = derive_key(password, &salt, &params).unwrap();
    let key2 = derive_key(password, &salt, &params).unwrap();

    assert_eq!(key1.expose(), key2.expose());
}

#[test]
fn test_derive_key_different_password() {
    let salt = [1u8; 16];
    let params = fast_params();

    let key1 = derive_key(b"password1", &salt, &params).unwrap();
    let key2 = derive_key(b"password2", &salt, &params).unwrap();

    assert_ne!(key1.expose(), key2.expose());
}

#[test]
fn test_derive_key_different_salt() {
    let password = b"password";
    let salt1 = [1u8; 16];
    let salt2 = [2u8; 16];
    let params = fast_params();

    let key1 = derive_key(password, &salt1, &params).unwrap();
    let key2 = derive_key(password, &salt2, &params).unwrap();

    assert_ne!(key1.expose(), key2.expose());
}

#[test]
fn test_key_length_always_32() {
    let password = b"test";
    let salt = generate_salt();
    let params = KdfParams::default();

    let key = derive_key(password, &salt, &params).unwrap();
    assert_eq!(key.expose().len(), 32);
}

#[test]
fn test_invalid_params() {
    let params = KdfParams {
        memory_kb: 100, // Too low
        time_cost: 1,
        parallelism: 1,
    };

    assert!(params.validate().is_err());
}

#[test]
fn test_params_default() {
    let params = KdfParams::default();
    assert!(params.validate().is_ok());
    assert_eq!(params.memory_kb, 65536);
}

#[test]
fn derive_key_rejects_invalid_params() {
    let params = KdfParams {
        memory_kb: 8192,
        time_cost: 0,
        parallelism: 1,
    };
    match derive_key(b"pw", &[0u8; 16], &params) {
        Err(Error::InvalidArgument(m)) => assert_eq!(m, "Time cost must be >= 1"),
        _ => panic!("expected an invalid argument"),
    }
    let params = KdfParams {
        memory_kb: 8192,
        time_cost: 1,
        parallelism: 0,
    };
    match params.validate() {
        Err(Error::InvalidArgument(m)) => assert_eq!(m, "Parallelism must be >= 1"),
        _ => panic!("expected an invalid argument"),
    }
    match (KdfParams { memory_kb: 100, time_cost: 1, parallelism: 1 }).validate() {
        Err(Error::InvalidArgument(m)) => assert_eq!(m, "Memory cost too low (< 8 MB)"),
        _ => panic!("expected an invalid argument"),
    }
}

#[test]
fn derive_key_depends_on_time_cost() {
    let salt = [3u8; 16];
    let one = derive_key(b"pw", &salt, &fast_params()).unwrap();
    let two = derive_key(
        b"pw",
        &salt,
        &KdfParams {
            memory_kb: 8192,
            time_cost: 2,
            parallelism: 1,
        },
    )
    .unwrap();
    assert_ne!(one.expose(), two.expose());
    // parallelism does not reach libsodium: the same key
    let four_lanes = derive_key(
        b"pw",
        &salt,
        &KdfParams {
            memory_kb: 8192,
            time_cost: 1,
            parallelism: 4,
        },
    )
    .unwrap();
    assert_eq!(one.expose(), four_lanes.expose());
}
