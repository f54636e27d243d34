//! Preparing a share payload.
//!
//! The text and URL of a payload are combined into one string, and each
//! inline file is decoded from Base64, given a sanitized unique name, and
//! materialized to a temporary artifact that is registered with the
//! temp-file manager for guaranteed later deletion. Invoking the native
//! share surface itself, and the UI plumbing around it, stay with the
//! caller: this module only decides and materializes.

use vstd::prelude::*;
use vstd::string::StrSliceExecFns;
use vstd::string::StringExecFns;

use base64::Engine;

use crate::disk::{fresh_unique_token, write_temp_file};
use crate::error::Error;
use crate::models::{ShareOptions, SharedFile};
use crate::state::PluginTempFileManager;

verus! {

/// What the Base64 standard engine decodes an input to: a function of the
/// input characters alone, and nothing for a malformed input.
pub uninterp spec fn base64_decoded(s: Seq<char>) -> Option<Seq<u8>>;

/// Relies on base64's STANDARD engine: decoding depends on the input
/// characters alone; a malformed input decodes to nothing.
#[verifier::external_body]
fn decode_base64(data: &String) -> (r: Option<Vec<u8>>)
    ensures
        match r {
            Some(v) => base64_decoded(data@) == Some(v@),
            None => base64_decoded(data@) is None,
        },
{
    base64::engine::general_purpose::STANDARD.decode(data.as_str()).ok()
}

/// The view of an optional string.
pub open spec fn opt_view(o: Option<String>) -> Option<Seq<char>> {
    match o {
        Some(s) => Some(s@),
        None => None,
    }
}

/// The single text a payload's text and URL are combined into: both joined
/// by a newline, either alone as it is, and empty when both are absent.
pub open spec fn combined_text_spec(text: Option<Seq<char>>, url: Option<Seq<char>>) -> Seq<
    char,
> {
    match (text, url) {
        (Some(t), Some(u)) => t + seq!['\n'] + u,
        (Some(t), None) => t,
        (None, Some(u)) => u,
        (None, None) => Seq::empty(),
    }
}

/// Combine a payload's text and URL into the one string handed to the
/// native surface.
pub fn combined_share_text(text: &Option<String>, url: &Option<String>) -> (r: String)
    ensures
        r@ == combined_text_spec(opt_view(*text), opt_view(*url)),
{
    match (text, url) {
        (Some(t), Some(u)) => {
            let mut s = t.clone();
            s.append("\n");
            s.append(u.as_str());
            proof {
                reveal_strlit("\n");
                assert("\n"@ =~= seq!['\n']);
            }
            s
        },
        (Some(t), None) => t.clone(),
        (None, Some(u)) => u.clone(),
        (None, None) => String::new(),
    }
}

/// Whether a character separates path components.
pub open spec fn is_path_separator(c: char) -> bool {
    c == '/' || c == '\\'
}

/// The index where a path's file name starts: right after the last
/// separator, or zero when there is none.
pub open spec fn file_name_start(s: Seq<char>) -> int
    decreases s.len(),
{
    if s.len() == 0 {
        0
    } else if is_path_separator(s[s.len() - 1]) {
        s.len() as int
    } else {
        file_name_start(s.drop_last())
    }
}

/// The file-name part of a path: everything after the last separator.
pub open spec fn file_name_part(s: Seq<char>) -> Seq<char> {
    s.subrange(file_name_start(s), s.len() as int)
}

/// A usable file name: non-empty, and neither of the relative components.
pub open spec fn acceptable_file_name(p: Seq<char>) -> bool {
    p.len() > 0 && p != seq!['.'] && p != seq!['.', '.']
}

/// What sanitizing a client-supplied name yields: the bare file-name part,
/// directories stripped, or nothing when no usable name is left.
pub open spec fn sanitized_file_name_spec(s: Seq<char>) -> Option<Seq<char>> {
    if acceptable_file_name(file_name_part(s)) {
        Some(file_name_part(s))
    } else {
        None
    }
}

/// Strip any directory part from a client-supplied file name, so a name
/// can never traverse out of the temporary directory; a name with nothing
/// usable left is rejected.
pub fn sanitize_file_name(name: &String) -> (r: Option<String>)
    ensures
        match r {
            Some(n) => sanitized_file_name_spec(name@) == Some(n@),
            None => sanitized_file_name_spec(name@) is None,
        },
{
    let ghost s = name@;
    let n = name.as_str().unicode_len();
    let mut start: usize = 0;
    for i in 0..n
        invariant
            n == s.len(),
            s == name@,
            start as int == file_name_start(s.subrange(0, i as int)),
            start <= i,
    {
        let c = name.as_str().get_char(i);
        proof {
            assert(s.subrange(0, i + 1 as int).drop_last() =~= s.subrange(0, i as int));
        }
        if c == '/' || c == '\\' {
            start = i + 1;
        }
    }
    proof {
        assert(s.subrange(0, n as int) =~= s);
    }
    let part = name.as_str().substring_char(start, n);
    let part_len = n - start;
    let ghost p = file_name_part(s);
    if part_len == 0 {
        proof {
            assert(p.len() == 0);
        }
        return None;
    }
    if part_len == 1 && part.get_char(0) == '.' {
        proof {
            assert(p =~= seq!['.']);
        }
        return None;
    }
    if part_len == 2 && part.get_char(0) == '.' && part.get_char(1) == '.' {
        proof {
            assert(p =~= seq!['.', '.']);
        }
        return None;
    }
    proof {
        assert(p.len() > 0);
        if p == seq!['.'] {
            assert(p.len() == 1 && p[0] == '.');
        }
        if p == seq!['.', '.'] {
            assert(p.len() == 2 && p[0] == '.' && p[1] == '.');
        }
    }
    Some(part.to_owned())
}

/// Decode one inline file and materialize it as a temporary artifact in
/// the given directory, under a unique sanitized name: the created path
/// ends in the sanitized file name, so no client-supplied directory part
/// can reach the disk. A payload whose data is not valid Base64, or whose
/// name has no usable file-name part, is rejected as invalid; only the
/// disk itself can otherwise fail.
pub fn create_temp_file_for_data(file: &SharedFile, temp_dir: &String) -> (r: Result<String, Error>)
    ensures
        (r is Err && r->Err_0 is InvalidArgs) <==> (base64_decoded(file.data@) is None
            || sanitized_file_name_spec(file.name@) is None),
        r is Err ==> (r->Err_0 is InvalidArgs || r->Err_0 is TempFile),
        r is Ok ==> (seq!['-'] + sanitized_file_name_spec(file.name@)->Some_0).is_suffix_of(
            (r->Ok_0)@,
        ),
{
    let decoded_bytes = match decode_base64(&file.data) {
        Some(bytes) => bytes,
        None => {
            return Err(Error::InvalidArgs("invalid Base64 data provided".to_owned()));
        },
    };
    let sanitized_name = match sanitize_file_name(&file.name) {
        Some(name) => name,
        None => {
            return Err(Error::InvalidArgs("invalid file name provided".to_owned()));
        },
    };
    let token = fresh_unique_token();
    let prefix = token.concat("-");
    let mut suffix = "-".to_owned();
    suffix.append(sanitized_name.as_str());
    proof {
        reveal_strlit("-");
        assert(suffix@ =~= seq!['-'] + sanitized_name@);
    }
    match write_temp_file(temp_dir, &prefix, &suffix, &decoded_bytes) {
        Ok(path) => Ok(path),
        Err(e) => Err(Error::TempFile(e)),
    }
}

/// The inline files of a payload, an absent list reading as an empty one.
pub open spec fn files_seq(options: ShareOptions) -> Seq<SharedFile> {
    match options.files {
        Some(fs) => fs@,
        None => Seq::empty(),
    }
}

/// Whether an inline file can be materialized at all: its data decodes and
/// its name sanitizes.
pub open spec fn file_valid(f: SharedFile) -> bool {
    base64_decoded(f.data@) is Some && sanitized_file_name_spec(f.name@) is Some
}

/// Whether every inline file of a list can be materialized.
pub open spec fn all_files_valid(fs: Seq<SharedFile>) -> bool {
    forall|i: int| 0 <= i < fs.len() ==> file_valid(#[trigger] fs[i])
}

/// A payload with nothing to share: no combined text and no files.
pub open spec fn payload_empty(options: ShareOptions) -> bool {
    combined_text_spec(opt_view(options.text), opt_view(options.url)).len() == 0 && files_seq(
        options,
    ).len() == 0
}

/// What the native surface is to be invoked with: the combined text and
/// the paths of the materialized artifacts.
pub struct SharePlan {
    /// The payload's text and URL, combined.
    pub text: String,
    /// The materialized artifacts' paths, one per inline file, in payload
    /// order.
    pub files: Vec<String>,
}

/// Turn a payload into a plan for the native surface: combine its text,
/// materialize every inline file into the given directory and register
/// each created artifact with the manager as it is created, so that even a
/// failed share leaves nothing untracked. An empty payload, or a file that
/// cannot be decoded or named, is rejected as invalid; otherwise only the
/// disk itself can fail. Artifacts created before a failure stay
/// registered for later cleanup.
pub fn prepare_share(
    mgr: &mut PluginTempFileManager,
    options: &ShareOptions,
    temp_dir: &String,
) -> (r: Result<SharePlan, Error>)
    ensures
        old(mgr).paths().is_prefix_of(final(mgr).paths()),
        r is Err ==> (r->Err_0 is InvalidArgs || r->Err_0 is TempFile),
        payload_empty(*options) ==> r is Err && r->Err_0 is InvalidArgs && final(mgr).paths()
            == old(mgr).paths(),
        !all_files_valid(files_seq(*options)) ==> r is Err,
        !payload_empty(*options) && files_seq(*options).len() == 0 ==> r is Ok,
        r is Err && r->Err_0 is TempFile ==> files_seq(*options).len() > 0,
        r is Ok ==> {
            &&& !payload_empty(*options)
            &&& all_files_valid(files_seq(*options))
            &&& (r->Ok_0).text@ == combined_text_spec(opt_view(options.text), opt_view(options.url))
            &&& (r->Ok_0).files@.len() == files_seq(*options).len()
            &&& final(mgr).paths() == old(mgr).paths() + (r->Ok_0).files@.map_values(
                |p: String| p@,
            )
        },
{
    let ghost base = mgr.paths();
    let text = combined_share_text(&options.text, &options.url);
    let mut created: Vec<String> = Vec::new();
    let mut pending_error: Option<Error> = None;
    if let Some(files) = &options.files {
        let m = files.len();
        let mut j: usize = 0;
        while j < m && pending_error.is_none()
            invariant
                m == files.len(),
                j <= m,
                j == 0 ==> pending_error is None,
                base.is_prefix_of(mgr.paths()),
                pending_error is None ==> {
                    &&& mgr.paths() == base + created@.map_values(|p: String| p@)
                    &&& created@.len() == j
                    &&& forall|k: int| 0 <= k < j ==> file_valid(#[trigger] files@[k])
                },
                pending_error is Some ==> {
                    &&& (pending_error->0 is InvalidArgs || pending_error->0 is TempFile)
                    &&& !(all_files_valid(files@) && pending_error->0 is InvalidArgs)
                },
            decreases m - j,
        {
            match create_temp_file_for_data(&files[j], temp_dir) {
                Ok(path) => {
                    let registered = mgr.add_file(path.clone());
                    proof {
                        assert(registered is Ok);
                        assert(mgr.paths() =~= base + created@.push(path).map_values(
                            |p: String| p@,
                        ));
                        assert(base.is_prefix_of(mgr.paths())) by {
                            assert(forall|k: int|
                                0 <= k < base.len() ==> mgr.paths()[k] == base[k]);
                            assert(base =~= mgr.paths().subrange(0, base.len() as int));
                        }
                    }
                    created.push(path);
                },
                Err(e) => {
                    proof {
                        if e is InvalidArgs {
                            assert(!file_valid(files@[j as int]));
                            assert(!all_files_valid(files@));
                        }
                    }
                    pending_error = Some(e);
                },
            }
            j = j + 1;
        }
    }
    if let Some(e) = pending_error {
        return Err(e);
    }
    let no_files = match &options.files {
        Some(fs) => fs.len() == 0,
        None => true,
    };
    if text.as_str().is_empty() && no_files {
        proof {
            assert(final(mgr).paths() =~= old(mgr).paths());
        }
        return Err(Error::InvalidArgs("no content provided to share".to_owned()));
    }
    Ok(SharePlan { text, files: created })
}

} // verus!
