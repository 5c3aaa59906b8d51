//! The interactive session of the password manager: the records kept on
//! disk, the login check, and the state machine that the terminal interface
//! drives.
pub mod records;

pub mod tech;
pub mod state;
pub mod input;
pub mod hexfield;
pub mod view;
