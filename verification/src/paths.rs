//! Path operations of the standard library and of `cargo_mobile2`, on paths
//! held as strings.
//!
//! A path is parsed by the rules of the platform that the crate is built
//! for. On that platform each operation below is a function of its
//! arguments alone: its result is given a name, and the contracts of the
//! callers speak of that name. Nothing here says what a name is on given
//! paths, beyond the few facts that the documentation of the operation
//! states of every path.

use vstd::prelude::*;
use crate::text::opt_text;

verus! {

/// What `std::path::Path::extension` returns for `path`: the part of the
/// file name after its last dot, if there is one.
pub uninterp spec fn extension_of(path: Seq<char>) -> Option<Seq<char>>;

/// What `std::path::Path::file_stem` returns for `path`: the file name
/// without its extension.
pub uninterp spec fn file_stem_of(path: Seq<char>) -> Option<Seq<char>>;

/// What `std::path::Path::is_absolute` returns for `path`.
pub uninterp spec fn is_absolute_path(path: Seq<char>) -> bool;

/// What `std::path::Path::join` returns for `base` and `path`: `path`
/// resolved against `base`.
pub uninterp spec fn joined_path(base: Seq<char>, path: Seq<char>) -> Seq<char>;

/// What `cargo_mobile2::util::relativize_path` returns for two absolute
/// paths: `path` as seen from the directory `relative_to`.
pub uninterp spec fn relativized_path(path: Seq<char>, relative_to: Seq<char>) -> Seq<char>;

/// Calls `std::path::Path::extension` on `path`, and hands out the
/// extension as a string.
///
/// Claimed: the result is the one named `extension_of`; and, since the
/// extension is the part of the file name after its last dot, a path
/// without any dot has none.
#[verifier::external_body]
pub(crate) fn extension(path: &str) -> (ext: Option<String>)
    ensures
        opt_text(ext) == extension_of(path@),
        !path@.contains('.') ==> ext is None,
{
    std::path::Path::new(path).extension().map(|ext| ext.to_string_lossy().into_owned())
}

/// Calls `std::path::Path::file_stem` on `path`, and hands out the stem as
/// a string.
///
/// Claimed: the result is the one named `file_stem_of`; and, since only a
/// path without a file name has no stem, and such a path has no extension
/// either, a path with an extension has a stem.
#[verifier::external_body]
pub(crate) fn file_stem(path: &str) -> (stem: Option<String>)
    ensures
        opt_text(stem) == file_stem_of(path@),
        extension_of(path@) is Some ==> stem is Some,
{
    std::path::Path::new(path).file_stem().map(|stem| stem.to_string_lossy().into_owned())
}

/// Calls `std::path::Path::is_absolute` on `path`.
///
/// Claimed: the result is the one named `is_absolute_path`.
#[verifier::external_body]
pub(crate) fn is_absolute(path: &str) -> (absolute: bool)
    ensures
        absolute == is_absolute_path(path@),
{
    std::path::Path::new(path).is_absolute()
}

/// Calls `std::path::Path::join` on `base` with `path`, and hands out the
/// joined path as a string.
///
/// Claimed: the result is the one named `joined_path`.
#[verifier::external_body]
pub(crate) fn join(base: &str, path: &str) -> (joined: String)
    ensures
        joined@ == joined_path(base@, path@),
{
    std::path::Path::new(base).join(path).to_string_lossy().into_owned()
}

/// Calls `cargo_mobile2::util::relativize_path`, and hands out the relative
/// path as a string.
///
/// The outside function asserts that both paths are absolute, and gives up
/// where they share no root. Both are left out here: the paths must be
/// absolute and begin with `/`, the root that all such paths share.
///
/// Claimed: the result is the one named `relativized_path`.
#[verifier::external_body]
pub(crate) fn relativize_path(path: &str, relative_to: &str) -> (relative: String)
    requires
        is_absolute_path(path@),
        is_absolute_path(relative_to@),
        path@.len() > 0 && path@[0] == '/',
        relative_to@.len() > 0 && relative_to@[0] == '/',
    ensures
        relative@ == relativized_path(path@, relative_to@),
{
    cargo_mobile2::util::relativize_path(path, relative_to).to_string_lossy().into_owned()
}

} // verus!
