//! The vault: its header format and its entries.
pub mod entry;
pub mod format;

pub use entry::VaultEntry;
pub use format::VaultHeader;
