//! A password entry: site, username, password and notes.
use crate::text::{blank, is_blank};
use vstd::prelude::*;
use vstd::string::StringSliceAdditionalSpecFns;

verus! {

/// A single password entry.
#[derive(Debug, Clone)]
pub struct VaultEntry {
    pub site: String,
    pub username: String,
    pub password: String,
    pub notes: String,
}

/// The length in bytes (UTF-8) of a string, as `str::len` reports it.
pub open spec fn byte_len(s: Seq<char>) -> nat {
    vstd::utf8::encode_utf8(s).len()
}

/// Why an entry is refused, in the order `validate` checks: a blank site,
/// then a site over 256 bytes, a username over 256 bytes, a password over
/// 4096 bytes, notes over 1024 bytes.
pub open spec fn entry_fault(site: Seq<char>, username: Seq<char>, password: Seq<char>, notes: Seq<
    char,
>) -> Option<Seq<char>> {
    if is_blank(site) {
        Some("Site cannot be empty"@)
    } else if byte_len(site) > 256 {
        Some("Site name too long"@)
    } else if byte_len(username) > 256 {
        Some("Username too long"@)
    } else if byte_len(password) > 4096 {
        Some("Password too long"@)
    } else if byte_len(notes) > 1024 {
        Some("Notes too long"@)
    } else {
        None
    }
}

impl VaultEntry {
    /// An entry made of the four given fields.
    pub fn new(site: String, username: String, password: String, notes: String) -> (e: Self)
        ensures
            e.site == site,
            e.username == username,
            e.password == password,
            e.notes == notes,
    {
        VaultEntry { site, username, password, notes }
    }

    /// Checks that the site is not blank and that no field is too long.
    pub fn validate(&self) -> (res: Result<(), String>)
        ensures
            match entry_fault(self.site@, self.username@, self.password@, self.notes@) {
                None => res is Ok,
                Some(m) => res matches Err(s) && s@ == m,
            },
    {
        if blank(self.site.as_str()) {
            return Err("Site cannot be empty".to_string());
        }
        if self.site.as_str().as_bytes().len() > 256 {
            return Err("Site name too long".to_string());
        }
        if self.username.as_str().as_bytes().len() > 256 {
            return Err("Username too long".to_string());
        }
        if self.password.as_str().as_bytes().len() > 4096 {
            return Err("Password too long".to_string());
        }
        if self.notes.as_str().as_bytes().len() > 1024 {
            return Err("Notes too long".to_string());
        }
        Ok(())
    }
}

} // verus!
