//! The data-transfer types of the share payload.

use vstd::prelude::*;

verus! {

/// A file to be shared: its content as Base64-encoded text, its name, and
/// its MIME type.
#[derive(Debug, Clone)]
pub struct SharedFile {
    pub data: String,
    pub name: String,
    pub mime_type: String,
}

/// The content and options of one share: text, a title, a URL and files,
/// all optional.
#[derive(Debug, Clone)]
pub struct ShareOptions {
    pub text: Option<String>,
    pub title: Option<String>,
    pub url: Option<String>,
    pub files: Option<Vec<SharedFile>>,
}

/// Whether the running platform has a native sharing dialog.
#[derive(Debug, Clone)]
pub struct CanShareResult {
    pub value: bool,
}

} // verus!
