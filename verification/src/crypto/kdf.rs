//! Password-based key derivation with Argon2id (libsodium's
//! `crypto_pwhash_argon2id`).
use crate::crypto::key::{key_bytes, SecretKey};
use crate::errors::{Error, Result};

use sodiumoxide::crypto::pwhash::argon2id13;
use sodiumoxide::randombytes;
use vstd::prelude::*;

verus! {

/// Argon2id cost parameters.
#[derive(Debug, Clone)]
pub struct KdfParams {
    /// Memory cost in KiB.
    pub memory_kb: u32,
    /// Time cost in passes.
    pub time_cost: u32,
    /// Parallelism (number of lanes).
    pub parallelism: u32,
}

/// Why a set of parameters is refused, in the order `validate` checks.
pub open spec fn kdf_fault(p: KdfParams) -> Option<Seq<char>> {
    if p.memory_kb < 8192 {
        Some("Memory cost too low (< 8 MB)"@)
    } else if p.time_cost < 1 {
        Some("Time cost must be >= 1"@)
    } else if p.parallelism < 1 {
        Some("Parallelism must be >= 1"@)
    } else {
        None
    }
}

/// libsodium's operations limit for a time cost: interactive (2) for one
/// pass, moderate (3) for two, sensitive (4) for more.
pub open spec fn ops_limit(time_cost: u32) -> usize {
    if time_cost == 1 {
        2
    } else if time_cost == 2 {
        3
    } else {
        4
    }
}

/// libsodium's memory limit in bytes for a memory cost in KiB: the cost
/// times 1024 (saturating), at most the sensitive limit of 1 GiB.
pub open spec fn mem_limit(memory_kb: u32) -> usize {
    let bytes: int = if memory_kb * 1024 > usize::MAX {
        usize::MAX as int
    } else {
        memory_kb * 1024
    };
    if bytes < 1073741824 {
        bytes as usize
    } else {
        1073741824
    }
}

/// The key that Argon2id derives (libsodium `crypto_pwhash` with
/// `ALG_ARGON2ID13`, 32 bytes of output) from a password, a salt, an
/// operations limit and a memory limit.
pub uninterp spec fn argon2id_key(password: Seq<u8>, salt: Seq<u8>, ops: usize, mem: usize) -> Seq<u8>;

/// The key `derive_key` computes for a password, salt and parameters.
pub open spec fn derived_key(password: Seq<u8>, salt: Seq<u8>, p: KdfParams) -> Seq<u8> {
    argon2id_key(password, salt, ops_limit(p.time_cost), mem_limit(p.memory_kb))
}

impl KdfParams {
    /// OWASP-recommended parameters: 64 MiB, 3 passes, 4 lanes.
    pub fn default() -> (p: Self)
        ensures
            p.memory_kb == 65536,
            p.time_cost == 3,
            p.parallelism == 4,
    {
        KdfParams { memory_kb: 65536, time_cost: 3, parallelism: 4 }
    }

    /// Checks the parameters: at least 8 MiB, one pass and one lane.
    pub fn validate(&self) -> (res: Result<()>)
        ensures
            match kdf_fault(*self) {
                None => res is Ok,
                Some(m) => res matches Err(Error::InvalidArgument(s)) && s@ == m,
            },
    {
        if self.memory_kb < 8192 {
            return Err(Error::InvalidArgument("Memory cost too low (< 8 MB)".to_string()));
        }
        if self.time_cost < 1 {
            return Err(Error::InvalidArgument("Time cost must be >= 1".to_string()));
        }
        if self.parallelism < 1 {
            return Err(Error::InvalidArgument("Parallelism must be >= 1".to_string()));
        }
        Ok(())
    }
}

/// Calls `sodiumoxide::randombytes::randombytes`: `n` bytes from the
/// operating system's random source. Only their number is stated.
#[verifier::external_body]
pub(crate) fn random_bytes(n: usize) -> (v: Vec<u8>)
    ensures
        v.len() == n,
{
    randombytes::randombytes(n)
}

/// A fresh random 16-byte salt.
pub fn generate_salt() -> [u8; 16] {
    let bytes = random_bytes(16);
    let mut salt = [0u8; 16];
    let mut i: usize = 0;
    while i < 16
        invariant
            bytes.len() == 16,
            0 <= i <= 16,
        decreases 16 - i,
    {
        salt[i] = bytes[i];
        i = i + 1;
    }
    salt
}

/// Reads `argon2id13::OPSLIMIT_INTERACTIVE`, which libsodium sets to 2.
#[verifier::external_body]
fn opslimit_interactive() -> (r: usize)
    ensures
        r == 2,
{
    argon2id13::OPSLIMIT_INTERACTIVE.0
}

/// Reads `argon2id13::OPSLIMIT_MODERATE`, which libsodium sets to 3.
#[verifier::external_body]
fn opslimit_moderate() -> (r: usize)
    ensures
        r == 3,
{
    argon2id13::OPSLIMIT_MODERATE.0
}

/// Reads `argon2id13::OPSLIMIT_SENSITIVE`, which libsodium sets to 4.
#[verifier::external_body]
fn opslimit_sensitive() -> (r: usize)
    ensures
        r == 4,
{
    argon2id13::OPSLIMIT_SENSITIVE.0
}

/// Reads `argon2id13::MEMLIMIT_SENSITIVE`, which libsodium sets to 1 GiB.
#[verifier::external_body]
fn memlimit_sensitive() -> (r: usize)
    ensures
        r == 1073741824,
{
    argon2id13::MEMLIMIT_SENSITIVE.0
}

/// Calls `argon2id13::derive_key` into a 32-byte buffer. On success the
/// buffer holds the Argon2id key of the password, salt and limits; the call
/// fails when libsodium refuses the limits or cannot allocate the memory,
/// which depends on the machine, so when it fails is not stated.
#[verifier::external_body]
fn argon2id_derive(password: &[u8], salt: &[u8; 16], ops: usize, mem: usize) -> (r: Option<
    [u8; 32],
>)
    ensures
        r matches Some(k) ==> k@ == argon2id_key(password@, salt@, ops, mem),
{
    let mut key = [0u8; 32];
    match argon2id13::derive_key(
        &mut key,
        password,
        &argon2id13::Salt(*salt),
        argon2id13::OpsLimit(ops),
        argon2id13::MemLimit(mem),
    ) {
        Ok(_) => Some(key),
        Err(()) => None,
    }
}

/// Derives a 32-byte key from a password and a salt with Argon2id.
///
/// Invalid parameters give their `validate` error. Otherwise the key is
/// Argon2id over the password and salt with libsodium limits mapped from the
/// parameters (see `ops_limit` and `mem_limit`), or `KdfFailed` when libsodium
/// cannot complete. The same inputs always give the same key.
pub fn derive_key(password: &[u8], salt: &[u8; 16], params: &KdfParams) -> (res: Result<
    SecretKey,
>)
    ensures
        match kdf_fault(*params) {
            Some(m) => res matches Err(Error::InvalidArgument(s)) && s@ == m,
            None => {
                &&& res is Err ==> res->Err_0 is KdfFailed
                &&& res is Ok ==> key_bytes(res->Ok_0) == derived_key(password@, salt@, *params)
            },
        },
{
    match params.validate() {
        Ok(()) => {},
        Err(e) => return Err(e),
    }
    let kb = params.memory_kb as usize;
    let bytes = if kb <= usize::MAX / 1024 {
        kb * 1024
    } else {
        usize::MAX
    };
    let cap = memlimit_sensitive();
    let memory = if bytes < cap {
        bytes
    } else {
        cap
    };
    let ops = if params.time_cost == 1 {
        opslimit_interactive()
    } else if params.time_cost == 2 {
        opslimit_moderate()
    } else {
        opslimit_sensitive()
    };
    assert(memory == mem_limit(params.memory_kb)) by (nonlinear_arith)
        requires
            kb == params.memory_kb,
            bytes == (if kb <= usize::MAX / 1024 { kb * 1024 } else { usize::MAX as int }),
            cap == 1073741824,
            memory == (if bytes < cap { bytes } else { cap }),
    ;
    match argon2id_derive(password, salt, ops, memory) {
        Some(key) => Ok(SecretKey::new(key)),
        None => Err(Error::KdfFailed),
    }
}

} // verus!
