//! The registry of managed temporary files.
//!
//! Every temporary artifact materialized for a share is registered here by
//! its path, and is deleted at most once: removing an entry takes it out of
//! the registry before the disk is touched, and the batch cleanup drains
//! the whole registry whatever the individual deletions do, so no entry can
//! be deleted twice and none is left behind.

use vstd::prelude::*;
use vstd::string::StringExecFns;

use crate::disk::delete_file_at;

verus! {

/// The index of the first entry equal to `p`, or `-1` when there is none.
pub open spec fn first_index_of(s: Seq<Seq<char>>, p: Seq<char>) -> int
    decreases s.len(),
{
    if s.len() == 0 {
        -1
    } else if s[0] == p {
        0
    } else {
        let rest = first_index_of(s.skip(1), p);
        if rest == -1 {
            -1
        } else {
            rest + 1
        }
    }
}

/// `first_index_of` finds exactly the first match.
proof fn lemma_first_index_of_found(s: Seq<Seq<char>>, p: Seq<char>, i: int)
    requires
        0 <= i < s.len(),
        s[i] == p,
        forall|k: int| 0 <= k < i ==> s[k] != p,
    ensures
        first_index_of(s, p) == i,
    decreases i,
{
    if i > 0 {
        assert(s.skip(1)[i - 1] == p);
        assert forall|k: int| 0 <= k < i - 1 implies s.skip(1)[k] != p by {
            assert(s.skip(1)[k] == s[k + 1]);
        }
        lemma_first_index_of_found(s.skip(1), p, i - 1);
    }
}

/// `first_index_of` finds nothing exactly when nothing matches.
proof fn lemma_first_index_of_missing(s: Seq<Seq<char>>, p: Seq<char>)
    requires
        forall|k: int| 0 <= k < s.len() ==> s[k] != p,
    ensures
        first_index_of(s, p) == -1,
    decreases s.len(),
{
    if s.len() > 0 {
        assert forall|k: int| 0 <= k < s.skip(1).len() implies s.skip(1)[k] != p by {
            assert(s.skip(1)[k] == s[k + 1]);
        }
        lemma_first_index_of_missing(s.skip(1), p);
    }
}

/// Whether `xs` occurs within `ys` in order: an order-preserving
/// subsequence, matched front to front.
pub open spec fn is_subsequence(xs: Seq<Seq<char>>, ys: Seq<Seq<char>>) -> bool
    decreases xs.len() + ys.len(),
{
    if xs.len() == 0 {
        true
    } else if ys.len() == 0 {
        false
    } else if xs[0] == ys[0] {
        is_subsequence(xs.skip(1), ys.skip(1))
    } else {
        is_subsequence(xs, ys.skip(1))
    }
}

/// A subsequence stays one when the right side grows at the end.
proof fn lemma_subsequence_extend(xs: Seq<Seq<char>>, ys: Seq<Seq<char>>, e: Seq<char>)
    requires
        is_subsequence(xs, ys),
    ensures
        is_subsequence(xs, ys.push(e)),
    decreases xs.len() + ys.len(),
{
    if xs.len() > 0 {
        assert(ys.push(e).skip(1) =~= ys.skip(1).push(e));
        if xs[0] == ys[0] {
            lemma_subsequence_extend(xs.skip(1), ys.skip(1), e);
        } else {
            lemma_subsequence_extend(xs, ys.skip(1), e);
        }
    }
}

/// A one-element sequence is a subsequence of anything ending in that
/// element.
proof fn lemma_subsequence_single(e: Seq<char>, ys: Seq<Seq<char>>)
    ensures
        is_subsequence(seq![e], ys.push(e)),
    decreases ys.len(),
{
    assert(seq![e].skip(1) =~= Seq::<Seq<char>>::empty());
    assert(seq![e][0] == e);
    if ys.len() == 0 {
        assert(ys.push(e)[0] == e);
        assert(is_subsequence(seq![e].skip(1), ys.push(e).skip(1)));
    } else if ys[0] == e {
        assert(ys.push(e)[0] == ys[0]);
        assert(is_subsequence(seq![e].skip(1), ys.push(e).skip(1)));
    } else {
        assert(ys.push(e)[0] == ys[0]);
        lemma_subsequence_single(e, ys.skip(1));
        assert(ys.push(e).skip(1) =~= ys.skip(1).push(e));
    }
}

/// A subsequence stays one when both sides grow by the same element.
proof fn lemma_subsequence_push_both(xs: Seq<Seq<char>>, ys: Seq<Seq<char>>, e: Seq<char>)
    requires
        is_subsequence(xs, ys),
    ensures
        is_subsequence(xs.push(e), ys.push(e)),
    decreases xs.len() + ys.len(),
{
    if xs.len() == 0 {
        lemma_subsequence_single(e, ys);
        assert(xs.push(e) =~= seq![e]);
    } else {
        assert(xs.push(e).skip(1) =~= xs.skip(1).push(e));
        assert(ys.push(e).skip(1) =~= ys.skip(1).push(e));
        if xs[0] == ys[0] {
            lemma_subsequence_push_both(xs.skip(1), ys.skip(1), e);
        } else {
            lemma_subsequence_push_both(xs, ys.skip(1), e);
        }
    }
}

/// Manages the temporary files created for shares.
pub struct PluginTempFileManager {
    /// The paths of all managed temporary files, in registration order.
    pub managed_files: Vec<String>,
}

impl PluginTempFileManager {
    /// The registered paths, as the contracts see them.
    pub open spec fn paths(&self) -> Seq<Seq<char>> {
        self.managed_files@.map_values(|p: String| p@)
    }

    /// An empty registry.
    pub fn new() -> (r: Self)
        ensures
            r.paths() == Seq::<Seq<char>>::empty(),
    {
        let r = Self { managed_files: Vec::new() };
        proof {
            assert(r.paths() =~= Seq::<Seq<char>>::empty());
        }
        r
    }

    /// Register a path; ownership of the artifact passes to the manager.
    pub fn add_file(&mut self, path: String) -> (r: Result<(), String>)
        ensures
            r is Ok,
            final(self).paths() == old(self).paths().push(path@),
    {
        self.managed_files.push(path);
        proof {
            assert(self.paths() =~= old(self).paths().push(path@));
        }
        Ok(())
    }

    /// The index of the first entry equal to the path, if any.
    fn index_of_path(&self, p: &String) -> (r: Option<usize>)
        ensures
            match r {
                Some(i) => i < self.managed_files.len() && self.paths()[i as int] == p@ && (forall|
                    k: int,
                |
                    0 <= k < i ==> self.paths()[k] != p@),
                None => forall|k: int| 0 <= k < self.paths().len() ==> self.paths()[k] != p@,
            },
    {
        let ghost s = self.paths();
        let n = self.managed_files.len();
        for i in 0..n
            invariant
                n == self.managed_files.len(),
                s == self.paths(),
                forall|k: int| 0 <= k < i ==> s[k] != p@,
        {
            assert(s[i as int] == self.managed_files@[i as int]@);
            if self.managed_files[i] == *p {
                return Some(i);
            }
        }
        None
    }

    /// Remove the first entry matching the path and delete the file behind
    /// it. The entry leaves the registry before the disk is touched, so a
    /// failed deletion is reported but never retried on a later cleanup.
    /// Fails when no entry matches, or when the deletion itself fails; the
    /// error names the path either way.
    pub fn remove_and_delete_file(&mut self, path_to_remove: &String) -> (r: Result<(), String>)
        ensures
            !old(self).paths().contains(path_to_remove@) ==> r is Err && (r->Err_0)@
                == "file not found in managed list: "@ + path_to_remove@ && final(self).paths()
                == old(self).paths(),
            old(self).paths().contains(path_to_remove@) ==> final(self).paths() == old(
                self,
            ).paths().remove(first_index_of(old(self).paths(), path_to_remove@)),
            old(self).paths().contains(path_to_remove@) && r is Err ==> (r->Err_0)@
                == "failed to delete file: "@ + path_to_remove@,
            r is Ok ==> old(self).paths().contains(path_to_remove@),
    {
        let ghost s = self.paths();
        match self.index_of_path(path_to_remove) {
            Some(i) => {
                proof {
                    lemma_first_index_of_found(s, path_to_remove@, i as int);
                    assert(s.contains(path_to_remove@)) by {
                        assert(s[i as int] == path_to_remove@);
                    }
                }
                let file_path = self.managed_files.remove(i);
                proof {
                    assert(self.paths() =~= s.remove(i as int));
                }
                if delete_file_at(&file_path) {
                    Ok(())
                } else {
                    let mut message = "failed to delete file: ".to_owned();
                    message.append(path_to_remove.as_str());
                    Err(message)
                }
            },
            None => {
                proof {
                    lemma_first_index_of_missing(s, path_to_remove@);
                    assert(!s.contains(path_to_remove@)) by {
                        if s.contains(path_to_remove@) {
                            let k = choose|k: int| 0 <= k < s.len() && s[k] == path_to_remove@;
                            assert(s[k] != path_to_remove@);
                        }
                    }
                }
                let mut message = "file not found in managed list: ".to_owned();
                message.append(path_to_remove.as_str());
                Err(message)
            },
        }
    }

    /// Drain the whole registry and attempt to delete every entry,
    /// continuing past individual failures; the paths whose deletion
    /// failed come back, in registration order, each standing for one old
    /// entry. The registry is empty afterwards whatever the disk did, and
    /// draining an already-empty registry is a no-op with no failures.
    pub fn cleanup_all_managed_files(&mut self) -> (failures: Vec<String>)
        ensures
            final(self).paths() == Seq::<Seq<char>>::empty(),
            failures@.len() <= old(self).paths().len(),
            is_subsequence(failures@.map_values(|p: String| p@), old(self).paths()),
            forall|k: int|
                0 <= k < failures@.len() ==> old(self).paths().contains(#[trigger] failures@[k]@),
            old(self).paths().len() == 0 ==> failures@.len() == 0 && final(self).paths() == old(
                self,
            ).paths(),
    {
        let ghost s = self.paths();
        let mut failures: Vec<String> = Vec::new();
        let n = self.managed_files.len();
        for i in 0..n
            invariant
                n == self.managed_files.len(),
                s == self.paths(),
                failures@.len() <= i,
                is_subsequence(failures@.map_values(|p: String| p@), s.subrange(0, i as int)),
                forall|k: int|
                    0 <= k < failures@.len() ==> s.contains(#[trigger] failures@[k]@),
        {
            assert(s[i as int] == self.managed_files@[i as int]@);
            let ghost seen = s.subrange(0, i as int);
            let ghost fail_views = failures@.map_values(|p: String| p@);
            if !delete_file_at(&self.managed_files[i]) {
                let failed = self.managed_files[i].clone();
                proof {
                    assert(s.contains(failed@)) by {
                        assert(s[i as int] == failed@);
                    }
                    lemma_subsequence_push_both(fail_views, seen, s[i as int]);
                }
                failures.push(failed);
                proof {
                    assert(failures@.map_values(|p: String| p@) =~= fail_views.push(s[i as int]));
                }
            } else {
                proof {
                    lemma_subsequence_extend(fail_views, seen, s[i as int]);
                }
            }
            proof {
                assert(s.subrange(0, i + 1 as int) =~= seen.push(s[i as int]));
            }
        }
        proof {
            assert(s.subrange(0, n as int) =~= s);
        }
        self.managed_files.clear();
        proof {
            assert(self.paths() =~= Seq::<Seq<char>>::empty());
            if s.len() == 0 {
                assert(final(self).paths() =~= s);
            }
        }
        failures
    }
}

} // verus!
