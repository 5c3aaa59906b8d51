//! The login check kept in `tech.json`: a random salt and a fixed message
//! encrypted under the key derived from the initial password. The password
//! itself is never stored.
use crate::crypto::cipher::{decrypt, encrypt, xchacha_open};
use crate::crypto::kdf::{derive_key, derived_key, generate_salt, KdfParams};
use crate::crypto::key::{key_bytes, SecretKey};
use crate::errors::{Error, Result};
use vstd::prelude::*;
use vstd::string::StringSliceAdditionalSpecFns;
use vstd::utf8::encode_utf8;

verus! {

/// The contents of `tech.json`.
#[derive(Debug, Clone)]
pub struct TechFile {
    pub salt: [u8; 16],
    pub check_ciphertext: Vec<u8>,
    pub check_nonce: [u8; 24],
}

/// The Argon2id costs of the login key and of the vault key: 64 MiB, three
/// passes, four lanes.
pub open spec fn auth_params() -> KdfParams {
    KdfParams { memory_kb: 65536, time_cost: 3, parallelism: 4 }
}

/// The parameters of `auth_params`.
pub fn auth_kdf_params() -> (p: KdfParams)
    ensures
        p == auth_params(),
{
    KdfParams { memory_kb: 65536, time_cost: 3, parallelism: 4 }
}

/// The message that the login check encrypts.
pub open spec fn check_message() -> Seq<u8> {
    encode_utf8("passm3nage-tech-check"@)
}

/// The additional data of the login check.
pub open spec fn check_aad() -> Seq<u8> {
    encode_utf8("tech.json"@)
}

/// The key that `password` derives with the check's salt.
pub open spec fn login_key(t: TechFile, password: Seq<char>) -> Seq<u8> {
    derived_key(encode_utf8(password), t.salt@, auth_params())
}

/// The check opens under `key` to the check message.
pub open spec fn opens_under(t: TechFile, key: Seq<u8>) -> bool {
    xchacha_open(t.check_ciphertext@, check_aad(), t.check_nonce@, key) == Some(check_message())
}

/// The check opens, under the key that `password` derives, to the check
/// message: `password` is the one the check was made with.
pub open spec fn accepts(t: TechFile, password: Seq<char>) -> bool {
    opens_under(t, login_key(t, password))
}

/// Whether a character is an ASCII digit.
pub open spec fn is_digit(c: char) -> bool {
    '0' <= c <= '9'
}

/// Whether a character is an ASCII letter or digit.
pub open spec fn is_alnum(c: char) -> bool {
    ('0' <= c <= '9') || ('a' <= c <= 'z') || ('A' <= c <= 'Z')
}

/// Why an initial password is refused: fewer than 8 characters, no digit,
/// or no character other than an ASCII letter or digit.
pub open spec fn password_fault(p: Seq<char>) -> Option<Seq<char>> {
    if p.len() < 8 {
        Some("Password must have at least 8 characters"@)
    } else if !(exists|i: int| 0 <= i < p.len() && #[trigger] is_digit(p[i])) {
        Some("Password must include at least one number"@)
    } else if !(exists|i: int| 0 <= i < p.len() && !#[trigger] is_alnum(p[i])) {
        Some("Password must include at least one special symbol"@)
    } else {
        None
    }
}

/// Checks the rules of an initial password: at least 8 characters, at least
/// one number and at least one special symbol.
pub fn validate_initial_password(password: &str) -> (res: core::result::Result<(), String>)
    ensures
        match password_fault(password@) {
            None => res is Ok,
            Some(m) => res matches Err(s) && s@ == m,
        },
{
    let cs = crate::text::chars_of(password);
    if cs.len() < 8 {
        return Err("Password must have at least 8 characters".to_string());
    }
    let mut has_digit = false;
    let mut has_special = false;
    let mut i: usize = 0;
    while i < cs.len()
        invariant
            cs@ == password@,
            0 <= i <= cs.len(),
            has_digit == (exists|j: int| 0 <= j < i && #[trigger] is_digit(password@[j])),
            has_special == (exists|j: int| 0 <= j < i && !#[trigger] is_alnum(password@[j])),
        decreases cs.len() - i,
    {
        let c = cs[i];
        let digit = '0' <= c && c <= '9';
        let special = !(('0' <= c && c <= '9') || ('a' <= c && c <= 'z') || ('A' <= c && c <= 'Z'));
        assert(c == password@[i as int]);
        assert(digit == is_digit(password@[i as int]));
        assert(special == !is_alnum(password@[i as int]));
        has_digit = has_digit || digit;
        has_special = has_special || special;
        i = i + 1;
    }
    if !has_digit {
        return Err("Password must include at least one number".to_string());
    }
    if !has_special {
        return Err("Password must include at least one special symbol".to_string());
    }
    Ok(())
}

/// Makes the login check for a new initial password: a fresh random salt,
/// and the check message encrypted under the key that the password derives
/// with it. Fails with `KdfFailed` only when key derivation cannot complete.
pub fn new_tech_file(password: &str) -> (res: Result<TechFile>)
    ensures
        res is Err ==> res->Err_0 is KdfFailed,
        res matches Ok(t) ==> accepts(t, password@),
{
    let salt = generate_salt();
    let params = auth_kdf_params();
    let key = match derive_key(password.as_bytes(), &salt, &params) {
        Ok(k) => k,
        Err(_) => return Err(Error::KdfFailed),
    };
    let message = "passm3nage-tech-check".as_bytes();
    proof {
        reveal_strlit("passm3nage-tech-check");
        assert(vstd::string::is_ascii("passm3nage-tech-check"));
        vstd::string::is_ascii_spec_bytes("passm3nage-tech-check");
    }
    assert(message.len() == 21);
    let (check_ciphertext, check_nonce) = match encrypt(message, &key, "tech.json".as_bytes()) {
        Ok(r) => r,
        Err(e) => return Err(e),
    };
    Ok(TechFile { salt, check_ciphertext, check_nonce })
}

fn bytes_equal(a: &[u8], b: &[u8]) -> (r: bool)
    ensures
        r == (a@ == b@),
{
    if a.len() != b.len() {
        return false;
    }
    let mut i: usize = 0;
    while i < a.len()
        invariant
            a.len() == b.len(),
            0 <= i <= a.len(),
            forall|j: int| 0 <= j < i ==> a@[j] == b@[j],
        decreases a.len() - i,
    {
        if a[i] != b[i] {
            return false;
        }
        i = i + 1;
    }
    assert(a@ =~= b@);
    true
}

/// Whether the login check opens under `key` to the check message: the
/// part of the password check that follows key derivation.
pub fn check_opens(tech: &TechFile, key: &SecretKey) -> (ok: bool)
    ensures
        ok == opens_under(*tech, key_bytes(*key)),
{
    match decrypt(&tech.check_ciphertext, key, &tech.check_nonce, "tech.json".as_bytes()) {
        Ok(plain) => bytes_equal(&plain, "passm3nage-tech-check".as_bytes()),
        Err(_) => false,
    }
}

/// Checks a password against the login check. `true` means that the check
/// opens under the password's key to the check message; a missing check,
/// a failed key derivation or any other outcome gives `false`. Once the
/// key is derived, the answer is that of `check_opens`.
pub fn verify_tech_file(tech: Option<&TechFile>, password: &str) -> (ok: bool)
    ensures
        ok ==> (tech matches Some(t) && accepts(*t, password@)),
{
    let t = match tech {
        Some(t) => t,
        None => return false,
    };
    let params = auth_kdf_params();
    let key = match derive_key(password.as_bytes(), &t.salt, &params) {
        Ok(k) => k,
        Err(_) => return false,
    };
    check_opens(t, &key)
}

/// Law: the login check that `new_tech_file` made for a password opens
/// under the key that the same password derives with the check's salt, so
/// `check_opens` answers `true` for that key; `verify_tech_file` therefore
/// accepts the password unless key derivation fails, and accepts only
/// passwords that the check accepts.
pub proof fn lemma_check_roundtrip(t: TechFile, password: Seq<char>, key: Seq<u8>)
    requires
        accepts(t, password),
        key == derived_key(encode_utf8(password), t.salt@, auth_params()),
    ensures
        opens_under(t, key),
{
}

/// Law: the rules of an initial password, over ASCII character ranges.
/// It is refused as too short below 8 characters; then as lacking a number
/// when no character is an ASCII digit; then as lacking a special symbol
/// when every character is an ASCII digit or an ASCII letter of either
/// case; otherwise it is accepted.
pub proof fn lemma_initial_password_rules(p: Seq<char>)
    ensures
        p.len() < 8 ==> password_fault(p) == Some("Password must have at least 8 characters"@),
        p.len() >= 8 && (forall|i: int| 0 <= i < p.len() ==> !('0' <= #[trigger] p[i] <= '9'))
            ==> password_fault(p) == Some("Password must include at least one number"@),
        p.len() >= 8 && (exists|i: int| 0 <= i < p.len() && '0' <= #[trigger] p[i] <= '9') && (forall|i: int|
            0 <= i < p.len() ==> ('0' <= #[trigger] p[i] <= '9' || 'a' <= p[i] <= 'z' || 'A' <= p[i] <= 'Z'))
            ==> password_fault(p) == Some("Password must include at least one special symbol"@),
        p.len() >= 8 && (exists|i: int| 0 <= i < p.len() && '0' <= #[trigger] p[i] <= '9') && (exists|i: int|
            0 <= i < p.len() && !('0' <= #[trigger] p[i] <= '9' || 'a' <= p[i] <= 'z' || 'A' <= p[i] <= 'Z'))
            ==> password_fault(p) is None,
{
    if p.len() >= 8 {
        if forall|i: int| 0 <= i < p.len() ==> !('0' <= #[trigger] p[i] <= '9') {
            assert(!(exists|i: int| 0 <= i < p.len() && #[trigger] is_digit(p[i])));
        }
        if exists|i: int| 0 <= i < p.len() && '0' <= #[trigger] p[i] <= '9' {
            let i = choose|i: int| 0 <= i < p.len() && '0' <= #[trigger] p[i] <= '9';
            assert(is_digit(p[i]));
        }
        if forall|i: int| 0 <= i < p.len() ==> ('0' <= #[trigger] p[i] <= '9' || 'a' <= p[i] <= 'z' || 'A'
            <= p[i] <= 'Z') {
            assert(!(exists|i: int| 0 <= i < p.len() && !#[trigger] is_alnum(p[i])));
        }
        if exists|i: int| 0 <= i < p.len() && !('0' <= #[trigger] p[i] <= '9' || 'a' <= p[i] <= 'z' || 'A'
            <= p[i] <= 'Z') {
            let i = choose|i: int| 0 <= i < p.len() && !('0' <= #[trigger] p[i] <= '9' || 'a' <= p[i] <= 'z'
                || 'A' <= p[i] <= 'Z');
            assert(!is_alnum(p[i]));
        }
    }
}

} // verus!
