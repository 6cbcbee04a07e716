//! File-system paths, held as `String`s, and the calls of `std::path::Path`
//! that read them. What a path's parent, file name or prefix is follows the
//! path rules of the platform the app is built for; for that build each is
//! a function of the path alone, and it is named here rather than restated.

use vstd::prelude::*;

verus! {

/// What `Path::parent` gives for `path` (converted to a `String`).
pub uninterp spec fn path_parent_result(path: Seq<char>) -> Option<Seq<char>>;

/// What `Path::file_name` gives for `path` (converted to a `String`).
pub uninterp spec fn path_file_name_result(path: Seq<char>) -> Option<Seq<char>>;

/// Whether `Path::starts_with` finds `base` to be a prefix of `path`, by
/// whole components.
pub uninterp spec fn path_starts_with_result(path: Seq<char>, base: Seq<char>) -> bool;

/// Calls `std::path::Path::parent` and converts the parent to a `String`
/// (lossily). Trusted: the result is [`path_parent_result`] of the path.
#[verifier::external_body]
pub(crate) fn path_parent(path: &str) -> (r: Option<String>)
    ensures
        r.deep_view() == path_parent_result(path@),
{
    std::path::Path::new(path).parent().map(|p| p.to_string_lossy().into_owned())
}

/// Calls `std::path::Path::file_name` and converts the name to a `String`
/// (lossily). Trusted: the result is [`path_file_name_result`] of the path,
/// and a file name, being one normal component of the path, is not empty.
/// Which characters it may hold depends on the platform's separators (on
/// Windows, `/` separates nothing in a verbatim `\\?\` path), and no clause
/// states it.
#[verifier::external_body]
pub(crate) fn path_file_name(path: &str) -> (r: Option<String>)
    ensures
        r.deep_view() == path_file_name_result(path@),
        r matches Some(n) ==> n@.len() > 0,
{
    std::path::Path::new(path).file_name().map(|n| n.to_string_lossy().into_owned())
}

/// Calls `std::path::Path::starts_with`, which compares whole path
/// components. Trusted: the result is [`path_starts_with_result`] of the
/// two paths.
#[verifier::external_body]
pub(crate) fn path_starts_with(path: &str, base: &str) -> (r: bool)
    ensures
        r == path_starts_with_result(path@, base@),
{
    std::path::Path::new(path).starts_with(base)
}

} // verus!
