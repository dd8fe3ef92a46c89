//! File-system paths, held as UTF-8 strings, and the standard library's and
//! normalize-path's operations on them.  Each operation is named by a spec
//! function: its result depends on the arguments alone (for the target the
//! crate is built for) and is stated no further.

use vstd::prelude::*;
use std::path::Path;
use normalize_path::NormalizePath;

verus! {

/// `base.join(rest)` as a string.
pub uninterp spec fn joined_path(base: Seq<char>, rest: Seq<char>) -> Seq<char>;

/// `normalize()` of normalize-path: `.` and `..` components resolved
/// without looking at the file system.
pub uninterp spec fn normalized_path(p: Seq<char>) -> Seq<char>;

/// `Path::starts_with`: whether the whole components of `base` begin `p`.
pub uninterp spec fn path_has_prefix(p: Seq<char>, base: Seq<char>) -> bool;

/// `Path::parent`: the path without its last component, if it has one.
pub uninterp spec fn path_parent(p: Seq<char>) -> Option<Seq<char>>;

/// The number of components of a path (`Path::components().count()`).
pub uninterp spec fn path_component_count(p: Seq<char>) -> nat;

/// `Path::is_relative`.
pub uninterp spec fn path_is_relative(p: Seq<char>) -> bool;

/// Joins two paths with `Path::join`; the paths are UTF-8, so the
/// conversion back to a string loses nothing.
#[verifier::external_body]
pub(crate) fn join_path(base: &str, rest: &str) -> (r: String)
    ensures
        r@ == joined_path(base@, rest@),
{
    Path::new(base).join(rest).to_string_lossy().into_owned()
}

/// Normalizes a path with normalize-path's `NormalizePath::normalize`.
#[verifier::external_body]
pub(crate) fn normalize(p: &str) -> (r: String)
    ensures
        r@ == normalized_path(p@),
{
    Path::new(p).normalize().to_string_lossy().into_owned()
}

/// `Path::starts_with`.
#[verifier::external_body]
pub(crate) fn starts_with(p: &str, base: &str) -> (r: bool)
    ensures
        r == path_has_prefix(p@, base@),
{
    Path::new(p).starts_with(base)
}

/// `Path::parent`.
#[verifier::external_body]
pub(crate) fn parent(p: &str) -> (r: Option<String>)
    ensures
        path_parent(p@) == match r {
            Some(q) => Some(q@),
            None => None::<Seq<char>>,
        },
{
    match Path::new(p).parent() {
        Some(q) => Some(q.to_string_lossy().into_owned()),
        None => None,
    }
}

/// `Path::components().count()`.
#[verifier::external_body]
pub(crate) fn component_count(p: &str) -> (r: usize)
    ensures
        r as nat == path_component_count(p@),
{
    Path::new(p).components().count()
}

/// `Path::is_relative`.
#[verifier::external_body]
pub(crate) fn is_relative(p: &str) -> (r: bool)
    ensures
        r == path_is_relative(p@),
{
    Path::new(p).is_relative()
}

} // verus!
