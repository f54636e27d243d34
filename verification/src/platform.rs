//! Per-platform availability and cleanup answers.

pub mod linux;
pub mod macos;
pub mod windows;
