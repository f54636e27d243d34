//! Availability and cleanup answers on Linux, where no native sharing
//! dialog exists.

use vstd::prelude::*;

use crate::error::Error;
use crate::models::CanShareResult;

verus! {

/// Sharing is never available: there is no native sharing dialog to show.
pub fn can_share() -> (r: Result<CanShareResult, Error>)
    ensures
        r is Ok && (r->Ok_0).value == false,
{
    Ok(CanShareResult { value: false })
}

/// Nothing to clean up: no artifacts are ever materialized here.
pub fn cleanup() -> (r: Result<(), Error>)
    ensures
        r is Ok,
{
    Ok(())
}

} // verus!
