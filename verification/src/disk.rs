//! Trusted bridge to the filesystem, through the tempfile and uuid crates.
//!
//! Temporary artifacts are created, persisted and deleted here; everything
//! around these calls — which paths are tracked, that each is deleted at
//! most once, how failures are aggregated — is verified in the callers.
//! Nothing is claimed of the disk's behaviour: every outcome of a call is
//! admitted, and the callers' contracts hold whatever came back.

use vstd::prelude::*;

verus! {

/// Relies on tempfile::Builder: creates a fresh, uniquely named file in the
/// given directory, with the given prefix and suffix around a random
/// alphanumeric middle part, writes the bytes to it, and persists it past
/// the guard. On success the created file's path comes back, ending in the
/// given suffix; on failure, the underlying error's message. That the path
/// lies under the given directory holds only for an absolute directory —
/// tempfile re-roots a relative one at the current directory — so it is
/// not claimed.
#[verifier::external_body]
pub(crate) fn write_temp_file(dir: &String, prefix: &String, suffix: &String, data: &Vec<
    u8,
>) -> (r: Result<String, String>)
    ensures
        r is Ok ==> suffix@.is_suffix_of((r->Ok_0)@),
{
    let mut file = tempfile::Builder::new().prefix(prefix.as_str()).suffix(
        suffix.as_str(),
    ).tempfile_in(dir.as_str()).map_err(|e| e.to_string())?;
    std::io::Write::write_all(&mut file, data.as_slice()).map_err(|e| e.to_string())?;
    match file.into_temp_path().keep() {
        Ok(path) => Ok(path.to_string_lossy().into_owned()),
        Err(e) => Err(e.to_string()),
    }
}

/// Relies on tempfile::TempPath: adopting the path and closing it deletes
/// the file at that path at once; true only when the deletion succeeded.
#[verifier::external_body]
pub(crate) fn delete_file_at(path: &String) -> bool {
    match tempfile::TempPath::try_from_path(std::path::Path::new(path.as_str())) {
        Ok(temp_path) => temp_path.close().is_ok(),
        Err(_) => false,
    }
}

/// Relies on uuid::Uuid::new_v4: a fresh random token, rendered in the
/// hyphenated form, to make artifact names unique; nothing more is claimed
/// of a random value.
#[verifier::external_body]
pub(crate) fn fresh_unique_token() -> String {
    uuid::Uuid::new_v4().to_string()
}

} // verus!
