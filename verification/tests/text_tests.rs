use passm3nage::text::{blank, contains, eq_ignore_ascii_case, trim};

#[test]
fn trimming() {
    assert_eq!(trim("  /tmp/backup \n"), "/tmp/backup");
    assert_eq!(trim("\u{3000}x y\u{a0}"), "x y");
    assert_eq!(trim("   "), "");
    assert_eq!(trim(""), "");
    assert!(blank(" \t\r\n"));
    assert!(!blank(" a "));
}

#[test]
fn ascii_case() {
    assert!(eq_ignore_ascii_case("GitHub", "github"));
    assert!(!eq_ignore_ascii_case("github", "github1"));
    assert!(!eq_ignore_ascii_case("É", "é"));
}

#[test]
fn substring() {
    assert!(contains("github", "hub"));
    assert!(contains("github", ""));
    assert!(!contains("git", "github"));
    assert!(!contains("gitlab", "hub"));
}
