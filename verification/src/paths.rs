//! Filesystem paths, carried through unread, and the computations on them
//! that locate a file's counterpart in the other tree and name the steps
//! that lead to it.

use std::path::PathBuf;
use vstd::prelude::*;

verus! {

/// An owned filesystem path. Nothing here looks inside one.
#[verifier::external_type_specification]
#[verifier::external_body]
pub struct ExPathBuf(PathBuf);

/// The path that `std::path::Path::join` gives for `base` and `rest`.
pub uninterp spec fn joined(base: PathBuf, rest: PathBuf) -> PathBuf;

/// What `std::path::Path::strip_prefix` leaves of `path` below `base`,
/// or `None` where `path` does not start with `base`.
pub uninterp spec fn stripped(path: PathBuf, base: PathBuf) -> Option<PathBuf>;

/// The text that `std::path::Path::display` shows for `path`.
pub uninterp spec fn shown(path: PathBuf) -> Seq<char>;

/// The components that `std::path::Path::components` finds in `path`, in
/// order, each as text in which whatever is not valid Unicode is replaced.
pub uninterp spec fn components(path: PathBuf) -> Seq<String>;

/// Calls `std::path::Path::join`: the result is `rest` adjoined to `base`,
/// a function of the two paths alone, known here only by the name `joined`.
#[verifier::external_body]
pub(crate) fn join(base: &PathBuf, rest: &PathBuf) -> (path: PathBuf)
    ensures
        path == joined(*base, *rest),
{
    base.join(rest)
}

/// Calls `std::path::Path::strip_prefix`: the result is the part of `path`
/// below `base`, or `None` where `base` is not a prefix of `path`; known here
/// only by the name `stripped`.
#[verifier::external_body]
pub(crate) fn strip_prefix(path: &PathBuf, base: &PathBuf) -> (rest: Option<PathBuf>)
    ensures
        rest == stripped(*path, *base),
{
    path.strip_prefix(base).ok().map(|rest| rest.to_path_buf())
}

/// Calls `std::path::Path::display` and collects what it shows: the text of
/// `path`, known here only by the name `shown`.
#[verifier::external_body]
pub(crate) fn path_text(path: &PathBuf) -> (text: String)
    ensures
        text@ == shown(*path),
{
    path.display().to_string()
}

/// Calls `std::path::Path::components`, which goes through the components
/// of `path` in order, and turns each into text with
/// `std::ffi::OsStr::to_string_lossy`, which replaces what is not valid
/// Unicode and keeps every other character: the result is a function of the
/// path alone, known here only by the name `components`.
#[verifier::external_body]
pub(crate) fn components_of(path: &PathBuf) -> (parts: Vec<String>)
    ensures
        parts@ == components(*path),
{
    path.components().map(|part| part.as_os_str().to_string_lossy().into_owned()).collect()
}

} // verus!
