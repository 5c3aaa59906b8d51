//! Clipboard: copying a password so that it is cleared after a timeout.
pub mod utils;

pub use utils::copy_password;
