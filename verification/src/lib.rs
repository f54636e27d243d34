//! Focus-based completion detection and temporary-artifact lifecycle for
//! native share dialogs.
//!
//! The native "share" surfaces of desktop platforms give no trustworthy
//! completion callback. This library infers that a share dialog has finished
//! from the host window's focus transitions (loss then regain), its
//! destruction, or a short grace timeout, and it tracks the temporary files
//! materialized to feed the dialog so that each is deleted exactly once.

use vstd::prelude::*;

mod channel;
mod disk;
pub mod error;
pub mod focus;
pub mod models;
pub mod platform;
pub mod share;
pub mod state;
pub mod waiters;

pub use error::Error;
pub use focus::{FocusEvent, FocusPhase, FocusState};
pub use models::{CanShareResult, ShareOptions, SharedFile};
pub use state::PluginTempFileManager;
pub use waiters::{begin_focus_wait, FocusWaitHandle, FocusWaiter, WaiterM, WaiterRegistry};

verus! {

/// The milliseconds a wait is bounded by: a caller blocked in a wait is
/// always released after this long, signal or no signal.
pub const FOCUS_WAIT_TIMEOUT_MS: u64 = 60_000;

/// The milliseconds after which a wait that saw no focus loss is force
/// completed, covering dialogs that never blur the host window.
pub const FOCUS_WAIT_GRACE_MS: u64 = 250;

} // verus!
