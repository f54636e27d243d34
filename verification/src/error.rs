//! The error taxonomy of the library.

use vstd::prelude::*;

verus! {

/// What can go wrong around a share operation.
///
/// Synchronization edges (poisoned locks, closed channels) are recovered
/// locally by the callers that hold the state and never surface here.
#[derive(Debug, Clone)]
pub enum Error {
    /// The payload was malformed: undecodable data or an unusable file name.
    InvalidArgs(String),
    /// The native dialog invocation failed.
    NativeApi(String),
    /// Creating, writing or deleting a temporary artifact failed.
    TempFile(String),
    /// A wait is already pending on the window: concurrent shares on one
    /// window are refused rather than merged or overwritten.
    Busy,
}

} // verus!
