//! Path operations on UTF-8 path text, done by `camino` and `std::path`.
//!
//! Each result is named by an uninterpreted function of the argument texts: what
//! the operation gives depends on the path syntax of the platform the crate is built
//! for, and is not restated here.

use camino::Utf8Path;
use vstd::prelude::*;

verus! {

/// The text of `camino::Utf8Path::join(base, part)`.
pub uninterp spec fn joined_path(base: Seq<char>, part: Seq<char>) -> Seq<char>;

/// The text of `camino::Utf8Path::parent(path)`, or `None` where the path ends in a root or prefix.
pub uninterp spec fn parent_path(path: Seq<char>) -> Option<Seq<char>>;

/// Whether `std::path::Path::starts_with(path, base)` holds: `base` is a prefix of
/// `path` made of whole components.
pub uninterp spec fn path_has_prefix(path: Seq<char>, base: Seq<char>) -> bool;

/// Calls `camino::Utf8Path::join`. Claims only that the result's text is
/// `joined_path` of the two texts.
#[verifier::external_body]
pub(crate) fn path_join(base: &str, part: &str) -> (r: String)
    ensures
        r@ == joined_path(base@, part@),
{
    Utf8Path::new(base).join(part).into_string()
}

/// Calls `camino::Utf8Path::parent`. Claims only that the result, by its text, is
/// `parent_path` of the argument's text.
#[verifier::external_body]
pub(crate) fn path_parent(path: &str) -> (r: Option<String>)
    ensures
        match r {
            Some(p) => parent_path(path@) == Some(p@),
            None => parent_path(path@) is None,
        },
{
    match Utf8Path::new(path).parent() {
        Some(p) => Some(p.as_str().to_string()),
        None => None,
    }
}

/// Calls `std::path::Path::starts_with`. Claims that the result is `path_has_prefix`
/// of the two texts, and that a path starts with itself (`base` is a prefix of
/// `path` when the two are the same); what else makes a prefix of whole components is
/// not restated.
#[verifier::external_body]
pub(crate) fn path_starts_with(path: &str, base: &str) -> (r: bool)
    ensures
        r == path_has_prefix(path@, base@),
        path@ == base@ ==> r,
{
    std::path::Path::new(path).starts_with(base)
}

} // verus!
