use vstd::prelude::*;

verus! {

/// Tunable parameters of the vault: the Argon2id costs, the clipboard
/// timeout and the largest payload that a vault may carry.
#[derive(Debug, Clone)]
pub struct Config {
    /// Argon2id memory cost in KiB.
    pub kdf_memory_kb: u32,
    /// Argon2id time cost (iterations).
    pub kdf_time_cost: u32,
    /// Argon2id parallelism (lanes).
    pub kdf_parallelism: u32,
    /// Clipboard auto-clear timeout in seconds.
    pub clipboard_timeout_secs: u64,
    /// Maximum vault payload size in bytes.
    pub max_payload_bytes: u32,
}

/// The reason a configuration is refused, in the order in which `validate`
/// checks them.
pub open spec fn config_fault(c: Config) -> Option<Seq<char>> {
    if c.kdf_memory_kb < 8192 {
        Some("KDF memory must be at least 8 MB"@)
    } else if c.kdf_time_cost < 1 {
        Some("KDF time cost must be at least 1"@)
    } else if c.kdf_parallelism < 1 {
        Some("KDF parallelism must be at least 1"@)
    } else {
        None
    }
}

impl Config {
    /// The default configuration: OWASP-recommended Argon2id costs
    /// (64 MiB, 3 passes, 4 lanes), a 30 s clipboard timeout and a 100 MiB
    /// payload limit.
    pub fn default() -> (c: Self)
        ensures
            c.kdf_memory_kb == 65536,
            c.kdf_time_cost == 3,
            c.kdf_parallelism == 4,
            c.clipboard_timeout_secs == 30,
            c.max_payload_bytes == 100 * 1024 * 1024,
    {
        Config {
            kdf_memory_kb: 65536,
            kdf_time_cost: 3,
            kdf_parallelism: 4,
            clipboard_timeout_secs: 30,
            max_payload_bytes: 100 * 1024 * 1024,
        }
    }

    /// A fast, less secure configuration for tests: 8 MiB, one pass, one
    /// lane, a 5 s clipboard timeout and a 10 MiB payload limit.
    pub fn fast() -> (c: Self)
        ensures
            c.kdf_memory_kb == 8192,
            c.kdf_time_cost == 1,
            c.kdf_parallelism == 1,
            c.clipboard_timeout_secs == 5,
            c.max_payload_bytes == 10 * 1024 * 1024,
    {
        Config {
            kdf_memory_kb: 8192,
            kdf_time_cost: 1,
            kdf_parallelism: 1,
            clipboard_timeout_secs: 5,
            max_payload_bytes: 10 * 1024 * 1024,
        }
    }

    /// Checks that the Argon2id costs are sensible: at least 8 MiB of
    /// memory, at least one pass and at least one lane.
    pub fn validate(&self) -> (res: Result<(), String>)
        ensures
            match config_fault(*self) {
                None => res is Ok,
                Some(m) => res matches Err(e) && e@ == m,
            },
    {
        if self.kdf_memory_kb < 8192 {
            return Err("KDF memory must be at least 8 MB".to_string());
        }
        if self.kdf_time_cost < 1 {
            return Err("KDF time cost must be at least 1".to_string());
        }
        if self.kdf_parallelism < 1 {
            return Err("KDF parallelism must be at least 1".to_string());
        }
        Ok(())
    }
}

impl Default for Config {
    fn default() -> (c: Self)
        ensures
            c.kdf_memory_kb == 65536,
            c.kdf_time_cost == 3,
            c.kdf_parallelism == 4,
            c.clipboard_timeout_secs == 30,
            c.max_payload_bytes == 100 * 1024 * 1024,
    {
        Config::default()
    }
}

} // verus!
