//! Availability answer on Windows.
//!
//! Cleaning this platform's dedicated temporary directory is filesystem
//! work at the edge and stays with the embedding application; the per-file
//! registry cleanup lives with the temp-file manager.

use vstd::prelude::*;

use crate::error::Error;
use crate::models::CanShareResult;

verus! {

/// Sharing is always available: the data-transfer dialog exists on every
/// supported system.
pub fn can_share() -> (r: Result<CanShareResult, Error>)
    ensures
        r is Ok && (r->Ok_0).value == true,
{
    Ok(CanShareResult { value: true })
}

} // verus!
