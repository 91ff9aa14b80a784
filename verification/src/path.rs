//! UTF-8 paths, held as their text.
//!
//! How a path falls into parts is a matter of the `camino` crate, and under it
//! of the platform that the library is built for. What `camino` computes on
//! paths is named here by uninterpreted functions, and called through the
//! three functions below.

use camino::{Utf8Path, Utf8PathBuf};
use std::path::PathBuf;
use vstd::prelude::*;

verus! {

#[verifier::external_type_specification]
#[verifier::external_body]
pub struct ExPathBuf(PathBuf);

/// What `Utf8PathBuf::from_path_buf` returns for a path, a UTF-8 path being
/// taken as its text.
pub uninterp spec fn utf8_path_buf_from_path_buf(path: PathBuf) -> Result<Seq<char>, PathBuf>;

/// What `Utf8Path::with_added_extension` returns, paths taken as their text.
pub uninterp spec fn utf8_path_with_added_extension(
    path: Seq<char>,
    extension: Seq<char>,
) -> Seq<char>;

/// Whether `Utf8Path`'s `==` holds two paths equal, paths taken as their text.
pub uninterp spec fn utf8_paths_equal(left: Seq<char>, right: Seq<char>) -> bool;

/// A result whose path is taken as its text.
pub open spec fn path_text<E>(result: Result<String, E>) -> Result<Seq<char>, E> {
    match result {
        Ok(path) => Ok(path@),
        Err(error) => Err(error),
    }
}

/// Whether a text holds a character that separates the parts of a path.
pub open spec fn has_path_separator(text: Seq<char>) -> bool {
    exists|i: int| 0 <= i < text.len() && (#[trigger] text[i] == '/' || text[i] == '\\')
}

/// Calls `Utf8PathBuf::from_path_buf`, which depends on the path alone: it
/// hands the path back where it is not UTF-8, and gives the UTF-8 path, here
/// as its text, where it is.
#[verifier::external_body]
pub(crate) fn utf8_path_of(path: PathBuf) -> (converted: Result<String, PathBuf>)
    ensures
        path_text(converted) == utf8_path_buf_from_path_buf(path),
{
    match Utf8PathBuf::from_path_buf(path) {
        Ok(utf8_path) => Ok(utf8_path.into_string()),
        Err(path) => Err(path),
    }
}

/// Calls `Utf8Path::with_added_extension`, which depends on the path and the
/// extension alone, and panics on an extension that holds a path separator.
#[verifier::external_body]
pub(crate) fn with_added_extension(path: &str, extension: &str) -> (extended: String)
    requires
        !has_path_separator(extension@),
    ensures
        extended@ == utf8_path_with_added_extension(path@, extension@),
{
    Utf8Path::new(path).with_added_extension(extension).into_string()
}

/// Compares two paths with `Utf8Path`'s `==`, which compares them part by
/// part: the answer depends on the two texts alone, and a path is equal to
/// itself.
#[verifier::external_body]
pub(crate) fn paths_equal(left: &str, right: &str) -> (equal: bool)
    ensures
        equal == utf8_paths_equal(left@, right@),
        left@ == right@ ==> equal,
{
    Utf8Path::new(left) == Utf8Path::new(right)
}

} // verus!
