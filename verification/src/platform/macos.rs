//! Availability and cleanup answers on macOS.

use vstd::prelude::*;

use crate::error::Error;
use crate::models::CanShareResult;

verus! {

/// Explicit cleanup has nothing to do: artifacts are dropped with their
/// temporary-file guards here.
pub fn cleanup() -> (r: Result<(), Error>)
    ensures
        r is Ok,
{
    Ok(())
}

/// Sharing is always available: the sharing service picker exists on every
/// supported system.
pub fn can_share() -> (r: Result<CanShareResult, Error>)
    ensures
        r is Ok && (r->Ok_0).value == true,
{
    Ok(CanShareResult { value: true })
}

} // verus!
