use passm3nage::config::Config;

#[test]
fn test_default_config_valid() {
    let config = Config::default();
    assert!(config.validate().is_ok());
}

#[test]
fn test_fast_config_valid() {
    let config = Config::fast();
    assert!(config.validate().is_ok());
}

#[test]
fn test_invalid_config() {
    let mut config = Config::default();
    config.kdf_memory_kb = 1024; // Too small
    assert!(config.validate().is_err());
}

#[test]
fn config_default_values() {
    let config = Config::default();
    assert_eq!(config.kdf_memory_kb, 65536);
    assert_eq!(config.kdf_time_cost, 3);
    assert_eq!(config.kdf_parallelism, 4);
    assert_eq!(config.clipboard_timeout_secs, 30);
    assert_eq!(config.max_payload_bytes, 100 * 1024 * 1024);
    let trait_default = <Config as Default>::default();
    assert_eq!(trait_default.kdf_memory_kb, 65536);
}

#[test]
fn config_error_messages() {
    let mut config = Config::fast();
    config.kdf_memory_kb = 8191;
    assert_eq!(config.validate().unwrap_err(), "KDF memory must be at least 8 MB");
    let mut config = Config::fast();
    config.kdf_time_cost = 0;
    assert_eq!(config.validate().unwrap_err(), "KDF time cost must be at least 1");
    let mut config = Config::fast();
    config.kdf_parallelism = 0;
    assert_eq!(config.validate().unwrap_err(), "KDF parallelism must be at least 1");
    let mut config = Config::fast();
    config.kdf_memory_kb = 8192;
    assert!(config.validate().is_ok());
}
