//! `std::path` queries on path text.
use vstd::prelude::*;

verus! {

/// The text of `Path::new(path).parent()`, when the path has a parent.
pub uninterp spec fn path_parent_of(path: Seq<char>) -> Option<Seq<char>>;

/// The text of `Path::new(path).file_name()`, when the path has one.
pub uninterp spec fn path_file_name_of(path: Seq<char>) -> Option<Seq<char>>;

/// Calls `std::path::Path::parent` on `path` and renders the parent as text.
/// The contract names the result `path_parent_of(path)`; it states nothing
/// about how components are split.
#[verifier::external_body]
pub(crate) fn path_parent(path: &str) -> (r: Option<String>)
    ensures
        r is None <==> path_parent_of(path@) is None,
        r matches Some(p) ==> path_parent_of(path@) == Some(p@),
{
    match std::path::Path::new(path).parent() {
        Some(p) => Some(p.to_string_lossy().to_string()),
        None => None,
    }
}

/// Calls `std::path::Path::file_name` on `path` and renders the name as text.
/// The contract names the result `path_file_name_of(path)`.
#[verifier::external_body]
pub(crate) fn path_file_name(path: &str) -> (r: Option<String>)
    ensures
        r is None <==> path_file_name_of(path@) is None,
        r matches Some(p) ==> path_file_name_of(path@) == Some(p@),
{
    match std::path::Path::new(path).file_name() {
        Some(p) => Some(p.to_string_lossy().to_string()),
        None => None,
    }
}

} // verus!
