//! Credentials and their encrypted form on disk. Each username and password
//! is encrypted on its own under the vault key, with the service name as
//! additional authenticated data.
use crate::crypto::cipher::{decrypt, encrypt, xchacha_open, xchacha_seal};
use crate::crypto::kdf::{derive_key, derived_key, kdf_fault, KdfParams};
use crate::crypto::key::{key_bytes, SecretKey};
use crate::text::string_from_utf8;
use vstd::prelude::*;
use vstd::string::StringSliceAdditionalSpecFns;
use vstd::utf8::{decode_utf8, encode_utf8, valid_utf8};

verus! {

/// A credential in clear: service name, username and password.
#[derive(Debug, Clone)]
pub struct PasswordEntry {
    pub service: String,
    pub username: String,
    pub password: String,
}

impl View for PasswordEntry {
    type V = (Seq<char>, Seq<char>, Seq<char>);

    open spec fn view(&self) -> Self::V {
        (self.service@, self.username@, self.password@)
    }
}

/// A credential as stored: the service in clear, the username and password
/// encrypted, each with its nonce.
#[derive(Debug, Clone)]
pub struct StoredEntry {
    pub service: String,
    pub username_ciphertext: Vec<u8>,
    pub username_nonce: [u8; 24],
    pub password_ciphertext: Vec<u8>,
    pub password_nonce: [u8; 24],
}

/// The vault file: the `log` flag (set on every vault the program writes)
/// and the stored entries.
#[derive(Debug, Clone)]
pub struct VaultFile {
    pub log: bool,
    pub entries: Vec<StoredEntry>,
}

/// The two shapes a vault file may have on disk: the current one, or the
/// legacy bare list of entries.
#[derive(Debug, Clone)]
pub enum VaultDiskFormat {
    Current(VaultFile),
    Legacy(Vec<StoredEntry>),
}

impl VaultDiskFormat {
    /// Whether the vault carries the `log` flag; a legacy vault never does.
    pub fn log_enabled(&self) -> (b: bool)
        ensures
            b == (self matches VaultDiskFormat::Current(v) && v.log),
    {
        match self {
            VaultDiskFormat::Current(v) => v.log,
            VaultDiskFormat::Legacy(_) => false,
        }
    }

    /// The stored entries, whichever the shape.
    pub fn into_entries(self) -> (v: Vec<StoredEntry>)
        ensures
            v == (match self {
                VaultDiskFormat::Current(f) => f.entries,
                VaultDiskFormat::Legacy(e) => e,
            }),
    {
        match self {
            VaultDiskFormat::Current(v) => v.entries,
            VaultDiskFormat::Legacy(e) => e,
        }
    }
}

/// The bytes of a string (UTF-8).
pub open spec fn utf8(s: Seq<char>) -> Seq<u8> {
    encode_utf8(s)
}

/// A field encrypts to `ct` under `key` and `nonce` with the service as
/// additional data, and opens back to it.
pub open spec fn sealed_field(field: Seq<char>, service: Seq<char>, ct: Seq<u8>, nonce: Seq<u8>, key: Seq<u8>) -> bool {
    &&& ct == xchacha_seal(utf8(field), utf8(service), nonce, key)
    &&& xchacha_open(ct, utf8(service), nonce, key) == Some(utf8(field))
}

/// `s` is the stored form of `e` under `key`.
pub open spec fn sealed_entry(s: StoredEntry, e: PasswordEntry, key: Seq<u8>) -> bool {
    &&& s.service@ == e.service@
    &&& sealed_field(e.username@, e.service@, s.username_ciphertext@, s.username_nonce@, key)
    &&& sealed_field(e.password@, e.service@, s.password_ciphertext@, s.password_nonce@, key)
}

/// A field is small enough to be encrypted (its length plus the tag fits a
/// `usize`).
pub open spec fn encryptable(field: Seq<char>) -> bool {
    utf8(field).len() + 16 <= usize::MAX
}

/// Why the entries from `n` on cannot all be encrypted: the first entry
/// whose username, then password, is too large.
pub open spec fn encrypt_fault(entries: Seq<PasswordEntry>, n: int) -> Option<Seq<char>>
    decreases n,
{
    if n <= 0 {
        None
    } else {
        match encrypt_fault(entries, n - 1) {
            Some(m) => Some(m),
            None => if !encryptable(entries[n - 1].username@) {
                Some("username encryption failed"@)
            } else if !encryptable(entries[n - 1].password@) {
                Some("password encryption failed"@)
            } else {
                None
            },
        }
    }
}

/// What opening a stored field gives.
pub open spec fn open_field(ct: Seq<u8>, service: Seq<char>, nonce: Seq<u8>, key: Seq<u8>) -> Option<Seq<u8>> {
    xchacha_open(ct, utf8(service), nonce, key)
}

/// Why a stored entry cannot be read back under `key`: a username or
/// password that does not open, then one that is not UTF-8.
pub open spec fn stored_fault(s: StoredEntry, key: Seq<u8>) -> Option<Seq<char>> {
    let u = open_field(s.username_ciphertext@, s.service@, s.username_nonce@, key);
    let p = open_field(s.password_ciphertext@, s.service@, s.password_nonce@, key);
    if u is None {
        Some("username decrypt failed"@)
    } else if p is None {
        Some("password decrypt failed"@)
    } else if !valid_utf8(u->0) {
        Some("username utf8 decode failed"@)
    } else if !valid_utf8(p->0) {
        Some("password utf8 decode failed"@)
    } else {
        None
    }
}

/// The credential that a readable stored entry holds under `key`.
pub open spec fn opened_entry(s: StoredEntry, key: Seq<u8>) -> (Seq<char>, Seq<char>, Seq<char>) {
    (
        s.service@,
        decode_utf8(open_field(s.username_ciphertext@, s.service@, s.username_nonce@, key)->0),
        decode_utf8(open_field(s.password_ciphertext@, s.service@, s.password_nonce@, key)->0),
    )
}

/// The first fault among the first `n` stored entries.
pub open spec fn first_stored_fault(stored: Seq<StoredEntry>, key: Seq<u8>, n: int) -> Option<
    Seq<char>,
>
    decreases n,
{
    if n <= 0 {
        None
    } else {
        match first_stored_fault(stored, key, n - 1) {
            Some(m) => Some(m),
            None => stored_fault(stored[n - 1], key),
        }
    }
}

/// `res` is what reading back all of `stored` under `key` gives: the first
/// fault's message, or every credential in order.
pub open spec fn opened_all(stored: Seq<StoredEntry>, key: Seq<u8>, res: Result<Vec<PasswordEntry>, &str>) -> bool {
    match first_stored_fault(stored, key, stored.len() as int) {
        Some(m) => res matches Err(x) && x@ == m,
        None => res matches Ok(v) && v@.len() == stored.len() && forall|i: int|
            0 <= i < stored.len() ==> #[trigger] v@[i]@ == opened_entry(stored[i], key),
    }
}

/// Encrypts every credential under `key`, each field with a fresh nonce and
/// the service name as additional data. A field too large to encrypt stops
/// the whole operation with the message that names it.
pub fn encrypt_entries(entries: &[PasswordEntry], key: &SecretKey) -> (res: Result<
    Vec<StoredEntry>,
    &'static str,
>)
    ensures
        match encrypt_fault(entries@, entries@.len() as int) {
            Some(m) => res matches Err(x) && x@ == m,
            None => res matches Ok(v) && v@.len() == entries@.len() && forall|i: int|
                0 <= i < entries@.len() ==> #[trigger] sealed_entry(v@[i], entries@[i], key_bytes(*key)),
        },
{
    let mut stored: Vec<StoredEntry> = Vec::new();
    let mut i: usize = 0;
    while i < entries.len()
        invariant
            0 <= i <= entries.len(),
            encrypt_fault(entries@, i as int) is None,
            stored@.len() == i,
            forall|j: int| 0 <= j < i ==> #[trigger] sealed_entry(stored@[j], entries@[j], key_bytes(*key)),
        decreases entries.len() - i,
    {
        let entry = &entries[i];
        let service = entry.service.as_str().as_bytes();
        let username = entry.username.as_str().as_bytes();
        let password = entry.password.as_str().as_bytes();
        if username.len() > usize::MAX - 16 {
            proof {
                lemma_encrypt_fault_stays(entries@, i as int + 1, entries@.len() as int);
            }
            return Err("username encryption failed");
        }
        if password.len() > usize::MAX - 16 {
            proof {
                lemma_encrypt_fault_stays(entries@, i as int + 1, entries@.len() as int);
            }
            return Err("password encryption failed");
        }
        let (username_ciphertext, username_nonce) = match encrypt(username, key, service) {
            Ok(r) => r,
            Err(_) => return Err("username encryption failed"),
        };
        let (password_ciphertext, password_nonce) = match encrypt(password, key, service) {
            Ok(r) => r,
            Err(_) => return Err("password encryption failed"),
        };
        stored.push(
            StoredEntry {
                service: entry.service.clone(),
                username_ciphertext,
                username_nonce,
                password_ciphertext,
                password_nonce,
            },
        );
        i = i + 1;
    }
    Ok(stored)
}

proof fn lemma_encrypt_fault_stays(entries: Seq<PasswordEntry>, i: int, n: int)
    requires
        0 < i <= n,
        encrypt_fault(entries, i) is Some,
    ensures
        encrypt_fault(entries, n) == encrypt_fault(entries, i),
    decreases n - i,
{
    if i < n {
        lemma_encrypt_fault_stays(entries, i, n - 1);
    }
}

/// Reads back every stored entry under `key`, stopping at the first one
/// whose username or password does not open or is not UTF-8, with the
/// message that says which.
pub fn decrypt_entries_with_key(stored: &[StoredEntry], key: &SecretKey) -> (res: Result<
    Vec<PasswordEntry>,
    &'static str,
>)
    ensures
        opened_all(stored@, key_bytes(*key), res),
{
    let mut out: Vec<PasswordEntry> = Vec::new();
    let mut i: usize = 0;
    while i < stored.len()
        invariant
            0 <= i <= stored.len(),
            first_stored_fault(stored@, key_bytes(*key), i as int) is None,
            out@.len() == i,
            forall|j: int| 0 <= j < i ==> #[trigger] out@[j]@ == opened_entry(stored@[j], key_bytes(*key)),
        decreases stored.len() - i,
    {
        let s = &stored[i];
        let service = s.service.as_str().as_bytes();
        let username_bytes = match decrypt(&s.username_ciphertext, key, &s.username_nonce, service) {
            Ok(b) => b,
            Err(_) => {
                proof {
                    lemma_stored_fault_stays(stored@, key_bytes(*key), i as int + 1, stored@.len() as int);
                }
                return Err("username decrypt failed");
            },
        };
        let password_bytes = match decrypt(&s.password_ciphertext, key, &s.password_nonce, service) {
            Ok(b) => b,
            Err(_) => {
                proof {
                    lemma_stored_fault_stays(stored@, key_bytes(*key), i as int + 1, stored@.len() as int);
                }
                return Err("password decrypt failed");
            },
        };
        let username = match string_from_utf8(username_bytes) {
            Some(u) => u,
            None => {
                proof {
                    lemma_stored_fault_stays(stored@, key_bytes(*key), i as int + 1, stored@.len() as int);
                }
                return Err("username utf8 decode failed");
            },
        };
        let password = match string_from_utf8(password_bytes) {
            Some(p) => p,
            None => {
                proof {
                    lemma_stored_fault_stays(stored@, key_bytes(*key), i as int + 1, stored@.len() as int);
                }
                return Err("password utf8 decode failed");
            },
        };
        out.push(PasswordEntry { service: s.service.clone(), username, password });
        i = i + 1;
    }
    Ok(out)
}

proof fn lemma_stored_fault_stays(stored: Seq<StoredEntry>, key: Seq<u8>, i: int, n: int)
    requires
        0 < i <= n,
        first_stored_fault(stored, key, i) is Some,
    ensures
        first_stored_fault(stored, key, n) == first_stored_fault(stored, key, i),
    decreases n - i,
{
    if i < n {
        lemma_stored_fault_stays(stored, key, i, n - 1);
    }
}

/// `res` is an outcome of reading back `stored` with the key that
/// `password` and `salt` derive under `params`: `"key derivation failed"`
/// (always so for invalid parameters, and possible whenever the derivation
/// cannot complete), or exactly what `decrypt_entries_with_key` gives under
/// the derived key.
pub open spec fn read_back(
    stored: Seq<StoredEntry>,
    password: Seq<u8>,
    salt: Seq<u8>,
    params: KdfParams,
    res: Result<Vec<PasswordEntry>, &str>,
) -> bool {
    &&& kdf_fault(params) is Some ==> (res matches Err(m) && m@ == "key derivation failed"@)
    &&& (res matches Err(m) && m@ == "key derivation failed"@) || opened_all(
        stored,
        derived_key(password, salt, params),
        res,
    )
}

/// Derives the vault key from the master password and salt, then reads back
/// every stored entry with it. A failed derivation gives
/// `"key derivation failed"` (always so for invalid parameters); otherwise
/// the outcome is that of `decrypt_entries_with_key` under the derived key.
pub fn decrypt_stored_entries(
    stored: &[StoredEntry],
    master_pwd: &str,
    salt: &[u8; 16],
    params: &KdfParams,
) -> (res: Result<Vec<PasswordEntry>, &'static str>)
    ensures
        read_back(stored@, master_pwd.spec_bytes(), salt@, *params, res),
{
    let key = match derive_key(master_pwd.as_bytes(), salt, params) {
        Ok(k) => k,
        Err(_) => return Err("key derivation failed"),
    };
    decrypt_entries_with_key(stored, &key)
}

/// Law: what `encrypt_entries` stores under a key reads back, under the same
/// key, to exactly the credentials it was made from.
pub proof fn lemma_entries_roundtrip(entries: Seq<PasswordEntry>, stored: Seq<StoredEntry>, key: Seq<u8>)
    requires
        stored.len() == entries.len(),
        forall|i: int| 0 <= i < entries.len() ==> #[trigger] sealed_entry(stored[i], entries[i], key),
    ensures
        first_stored_fault(stored, key, stored.len() as int) is None,
        forall|i: int| 0 <= i < stored.len() ==> #[trigger] opened_entry(stored[i], key) == entries[i]@,
{
    lemma_entries_roundtrip_upto(entries, stored, key, stored.len() as int);
    assert forall|i: int| 0 <= i < stored.len() implies #[trigger] opened_entry(stored[i], key)
        == entries[i]@ by {
        assert(sealed_entry(stored[i], entries[i], key));
        vstd::utf8::encode_utf8_decode_utf8(entries[i].username@);
        vstd::utf8::encode_utf8_decode_utf8(entries[i].password@);
    }
}

proof fn lemma_entries_roundtrip_upto(entries: Seq<PasswordEntry>, stored: Seq<StoredEntry>, key: Seq<u8>, n: int)
    requires
        0 <= n <= stored.len(),
        stored.len() == entries.len(),
        forall|i: int| 0 <= i < entries.len() ==> #[trigger] sealed_entry(stored[i], entries[i], key),
    ensures
        first_stored_fault(stored, key, n) is None,
    decreases n,
{
    if n > 0 {
        lemma_entries_roundtrip_upto(entries, stored, key, n - 1);
        assert(sealed_entry(stored[n - 1], entries[n - 1], key));
        vstd::utf8::encode_utf8_valid_utf8(entries[n - 1].username@);
        vstd::utf8::encode_utf8_valid_utf8(entries[n - 1].password@);
    }
}

} // verus!
