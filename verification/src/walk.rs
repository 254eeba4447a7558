//! What a walk by the `walkdir` crate hands out, read into this library's
//! own terms.

use std::path::PathBuf;
use vstd::prelude::*;
use crate::entry::{hidden, is_hidden, Entry, WalkError};
use crate::paths::stripped;
use crate::session::{Reply, Session};

verus! {

/// An entry as `walkdir` hands it out. It is read only through the
/// functions below.
#[verifier::external_type_specification]
#[verifier::external_body]
pub struct ExDirEntry(walkdir::DirEntry);

/// A failure as `walkdir` hands it out. It is read only through the
/// functions below.
#[verifier::external_type_specification]
#[verifier::external_body]
pub struct ExWalkFailure(walkdir::Error);

/// The path that `walkdir::DirEntry::path` gives for `entry`.
pub uninterp spec fn entry_path(entry: walkdir::DirEntry) -> PathBuf;

/// The name that `walkdir::DirEntry::file_name` gives for `entry`, as text
/// in which whatever is not valid Unicode is replaced.
pub uninterp spec fn entry_name(entry: walkdir::DirEntry) -> String;

/// The depth that `walkdir::DirEntry::depth` gives for `entry`: how far
/// below the root of its walk the entry was found, 0 for the root itself.
pub uninterp spec fn entry_depth(entry: walkdir::DirEntry) -> usize;

/// Whether the file type that `walkdir::DirEntry::file_type` gives for
/// `entry` is that of a directory.
pub uninterp spec fn entry_is_dir(entry: walkdir::DirEntry) -> bool;

/// The path that `walkdir::Error::path` gives for `error`.
pub uninterp spec fn failure_path(error: walkdir::Error) -> Option<PathBuf>;

/// The I/O failure that `walkdir::Error::into_io_error` gives for `error`.
pub uninterp spec fn failure_cause(error: walkdir::Error) -> Option<std::io::Error>;

/// Calls `walkdir::DirEntry::path`, which reads the path that the entry
/// holds, and copies it: a fact about the entry alone, known here by the
/// name `entry_path`.
#[verifier::external_body]
fn path_of(entry: &walkdir::DirEntry) -> (path: PathBuf)
    ensures
        path == entry_path(*entry),
{
    entry.path().to_path_buf()
}

/// Calls `walkdir::DirEntry::file_name`, which gives the last component of
/// the entry's path, or the whole path where it has none, and turns it into
/// text with `std::ffi::OsStr::to_string_lossy`, which replaces what is not
/// valid Unicode and keeps every other character: a fact about the entry
/// alone, known here by the name `entry_name`.
#[verifier::external_body]
fn name_of(entry: &walkdir::DirEntry) -> (name: String)
    ensures
        name == entry_name(*entry),
{
    entry.file_name().to_string_lossy().into_owned()
}

/// Calls `walkdir::DirEntry::depth`, which reads the depth that the entry
/// holds: a fact about the entry alone, known here by the name
/// `entry_depth`.
#[verifier::external_body]
fn depth_of(entry: &walkdir::DirEntry) -> (depth: usize)
    ensures
        depth == entry_depth(*entry),
{
    entry.depth()
}

/// Calls `walkdir::DirEntry::file_type`, which reads the file type that the
/// entry holds, and asks it whether it is a directory's: a fact about the
/// entry alone, known here by the name `entry_is_dir`.
#[verifier::external_body]
fn is_dir_of(entry: &walkdir::DirEntry) -> (is_dir: bool)
    ensures
        is_dir == entry_is_dir(*entry),
{
    entry.file_type().is_dir()
}

/// Calls `walkdir::Error::path`, which reads the path that the failure
/// holds, if any, and copies it: a fact about the failure alone, known here
/// by the name `failure_path`.
#[verifier::external_body]
fn failed_path_of(error: &walkdir::Error) -> (path: Option<PathBuf>)
    ensures
        path == failure_path(*error),
{
    error.path().map(|path| path.to_path_buf())
}

/// Calls `walkdir::Error::into_io_error`, which hands out the I/O failure
/// that the failure holds, if any: a fact about the failure alone, known
/// here by the name `failure_cause`. A failure of `walkdir` is either an I/O
/// failure, at a path or at none, or a loop of links found at a path: so
/// one that holds no path holds an I/O failure.
#[verifier::external_body]
fn cause_of(error: walkdir::Error) -> (cause: Option<std::io::Error>)
    ensures
        cause == failure_cause(error),
        failure_path(error) is None ==> cause is Some,
{
    error.into_io_error()
}

/// Tells whether a walk should keep `entry` and, for a directory, go into
/// it. The root of the walk is always kept. Whatever is found below it is
/// kept unless its name starts with a dot.
pub fn skip_hidden(entry: &walkdir::DirEntry) -> (keep: bool)
    ensures
        keep == (entry_depth(*entry) == 0 || !is_hidden(entry_name(*entry)@)),
{
    if depth_of(entry) == 0 {
        true
    } else {
        let name = name_of(entry);
        !hidden(name.as_str())
    }
}

impl Entry {
    /// Describes `entry`, found while walking `root`. There is no entry for
    /// a path that does not lie below `root`.
    pub fn from_walk(root: &PathBuf, entry: &walkdir::DirEntry) -> (found: Option<Entry>)
        ensures
            found == match stripped(entry_path(*entry), *root) {
                Some(rest) => Some(
                    Entry {
                        path: entry_path(*entry),
                        short_path: rest,
                        is_dir: entry_is_dir(*entry),
                    },
                ),
                None => None,
            },
    {
        Entry::new(root, path_of(entry), is_dir_of(entry))
    }
}

impl WalkError {
    /// Describes `error` by the path and the cause that it holds, of which
    /// there is at least one.
    pub fn from_walk(error: walkdir::Error) -> (failure: WalkError)
        ensures
            failure == (WalkError { path: failure_path(error), io_error: failure_cause(error) }),
            failure.wf(),
    {
        let path = failed_path_of(&error);
        WalkError { path, io_error: cause_of(error) }
    }
}

/// What an item of a walk below `root` comes to in this library's terms: an
/// entry with its place below `root`, a failure with what is known of it, or
/// the end of the walk. `None` for an entry that does not lie below `root`.
pub open spec fn reply_to(
    root: PathBuf,
    item: Option<Result<walkdir::DirEntry, walkdir::Error>>,
) -> Option<Reply> {
    match item {
        None => Some(Reply::Walked(None)),
        Some(Err(error)) => Some(
            Reply::Walked(
                Some(Err(WalkError { path: failure_path(error), io_error: failure_cause(error) })),
            ),
        ),
        Some(Ok(entry)) => match stripped(entry_path(entry), root) {
            Some(rest) => Some(
                Reply::Walked(
                    Some(
                        Ok(
                            Entry {
                                path: entry_path(entry),
                                short_path: rest,
                                is_dir: entry_is_dir(entry),
                            },
                        ),
                    ),
                ),
            ),
            None => None,
        },
    }
}

impl Session {
    /// Turns what a walk below the destination root has handed out, or
    /// `None` at its end, into the reply that this run takes in. There is no
    /// reply for an entry that does not lie below the destination root.
    pub fn walked(&self, item: Option<Result<walkdir::DirEntry, walkdir::Error>>) -> (reply: Option<
        Reply,
    >)
        ensures
            reply == reply_to(self@.to, item),
    {
        match item {
            None => Some(Reply::Walked(None)),
            Some(Err(error)) => Some(Reply::Walked(Some(Err(WalkError::from_walk(error))))),
            Some(Ok(entry)) => match Entry::from_walk(self.to(), &entry) {
                Some(entry) => Some(Reply::Walked(Some(Ok(entry)))),
                None => None,
            },
        }
    }
}

} // verus!
