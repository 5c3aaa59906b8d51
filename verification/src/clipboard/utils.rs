use crate::errors::Result;
use vstd::prelude::*;

verus! {

/// Copies a password to the clipboard, to be cleared after the timeout.
/// No clipboard backend is attached yet: the call does nothing and
/// succeeds.
pub fn copy_password(_password: &str, _timeout_secs: u64) -> (res: Result<()>)
    ensures
        res is Ok,
{
    Ok(())
}

} // verus!
