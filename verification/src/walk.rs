//! Directory traversal behind the entry collector: the `walkdir` crate,
//! reached only through the trusted items in this module. What a walk
//! yields depends on the state of the disk, so nothing is promised about
//! the entries themselves; the collector states what it does with
//! whatever comes back.

use vstd::prelude::*;

verus! {

/// A depth-first walk in progress. The field is opaque.
#[verifier::external_body]
pub struct WalkHandle {
    inner: walkdir::IntoIter,
}

/// An upper bound on the steps a walk can still take; it shrinks with
/// every yielded item, because a walk visits each directory entry once.
pub uninterp spec fn walk_budget(w: WalkHandle) -> nat;

/// Relies on `walkdir::WalkDir::new` and `into_iter`: a depth-first walk
/// of the tree under the given root.
#[verifier::external_body]
pub(crate) fn walk_open(root: &str) -> (w: WalkHandle) {
    WalkHandle { inner: walkdir::WalkDir::new(root).into_iter() }
}

/// Relies on `walkdir::IntoIter::next`: the next visited path and whether
/// it is a regular file. An item that raised an error during traversal,
/// or whose path is not text, comes back as an empty step to be skipped.
#[verifier::external_body]
pub(crate) fn walk_next(w: &mut WalkHandle) -> (r: Option<Option<(String, bool)>>)
    ensures
        r is Some ==> walk_budget(*final(w)) < walk_budget(*old(w)),
{
    match w.inner.next() {
        None => None,
        Some(Err(_)) => Some(None),
        Some(Ok(e)) => Some(
            e.path().to_str().map(|s| (s.to_string(), e.file_type().is_file())),
        ),
    }
}

/// Relies on `walkdir::WalkDir::max_depth`, `follow_links` and
/// `IntoIter::next`: whether the path names a directory, a
/// non-directory, or nothing readable. Links are followed, so a link to
/// a directory counts as a directory.
#[verifier::external_body]
pub(crate) fn path_kind(path: &str) -> (r: Option<bool>) {
    match walkdir::WalkDir::new(path).follow_links(true).max_depth(0).into_iter().next() {
        Some(Ok(e)) => Some(e.file_type().is_dir()),
        _ => None,
    }
}

} // verus!
