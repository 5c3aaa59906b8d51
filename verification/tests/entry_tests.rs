use passm3nage::vault::entry::VaultEntry;

#[test]
fn test_entry_creation() {
    let entry = VaultEntry::new(
        "github.com".to_string(),
        "alice".to_string(),
        "secret123".to_string(),
        "personal account".to_string(),
    );

    assert_eq!(entry.site, "github.com");
    assert_eq!(entry.username, "alice");
    assert_eq!(entry.password, "secret123");
    assert_eq!(entry.notes, "personal account");
}

#[test]
fn test_entry_validation_empty_site() {
    let entry = VaultEntry::new(
        "".to_string(),
        "user".to_string(),
        "pass".to_string(),
        "".to_string(),
    );

    assert!(entry.validate().is_err());
}

#[test]
fn test_entry_validation_whitespace_site() {
    let entry = VaultEntry::new(
        "   ".to_string(),
        "user".to_string(),
        "pass".to_string(),
        "".to_string(),
    );

    assert!(entry.validate().is_err());
}

#[test]
fn test_entry_validation_success() {
    let entry = VaultEntry::new(
        "example.com".to_string(),
        "user".to_string(),
        "password".to_string(),
        "notes".to_string(),
    );

    assert!(entry.validate().is_ok());
}

#[test]
fn test_site_too_long() {
    let long_site = "a".repeat(300);
    let entry = VaultEntry::new(
        long_site,
        "user".to_string(),
        "pass".to_string(),
        "".to_string(),
    );

    assert!(entry.validate().is_err());
}

#[test]
fn test_password_too_long() {
    let long_pass = "a".repeat(5000);
    let entry = VaultEntry::new(
        "site.com".to_string(),
        "user".to_string(),
        long_pass,
        "".to_string(),
    );

    assert!(entry.validate().is_err());
}

fn entry(site: &str, user: &str, pass: &str, notes: &str) -> VaultEntry {
    VaultEntry::new(site.to_string(), user.to_string(), pass.to_string(), notes.to_string())
}

#[test]
fn entry_validation_messages() {
    assert_eq!(entry("", "u", "p", "").validate().unwrap_err(), "Site cannot be empty");
    assert_eq!(entry(" \t\u{3000}\n", "u", "p", "").validate().unwrap_err(), "Site cannot be empty");
    assert_eq!(entry(&"a".repeat(257), "u", "p", "").validate().unwrap_err(), "Site name too long");
    assert!(entry(&"a".repeat(256), "u", "p", "").validate().is_ok());
    assert_eq!(entry("s", &"u".repeat(257), "p", "").validate().unwrap_err(), "Username too long");
    assert_eq!(entry("s", "u", &"p".repeat(4097), "").validate().unwrap_err(), "Password too long");
    assert!(entry("s", "u", &"p".repeat(4096), "").validate().is_ok());
    assert_eq!(entry("s", "u", "p", &"n".repeat(1025)).validate().unwrap_err(), "Notes too long");
}

#[test]
fn entry_lengths_count_bytes() {
    // 129 two-byte characters are 258 bytes: too long for a site
    assert_eq!(entry(&"é".repeat(129), "u", "p", "").validate().unwrap_err(), "Site name too long");
    assert!(entry(&"é".repeat(128), "u", "p", "").validate().is_ok());
}
