//! What a walk over the destination tree hands out.

use std::path::PathBuf;
use vstd::prelude::*;
use crate::hooks::Notice;
use crate::paths::{components, components_of, strip_prefix, stripped};

verus! {

/// One filesystem node found below the destination root.
#[derive(Debug)]
pub struct Entry {
    /// Where the node is, starting with the destination root.
    pub path: PathBuf,
    /// The same place, relative to the destination root.
    pub short_path: PathBuf,
    /// Whether the node is a directory.
    pub is_dir: bool,
}

/// Why the walk could not hand out an entry: the place, the cause, or both.
#[derive(Debug)]
pub struct WalkError {
    /// The path at which the walk failed, where it is known.
    pub path: Option<PathBuf>,
    /// The I/O failure behind it, where there is one.
    pub io_error: Option<std::io::Error>,
}

impl WalkError {
    /// A failure of a walk is known by its path, by its cause, or by both.
    pub open spec fn wf(&self) -> bool {
        self.path is Some || self.io_error is Some
    }
}

/// A name is hidden when it starts with a dot.
pub open spec fn is_hidden(name: Seq<char>) -> bool {
    name.len() > 0 && name[0] == '.'
}

/// Whether one of `names` is hidden.
pub open spec fn any_hidden(names: Seq<String>) -> bool {
    exists|i: int| 0 <= i < names.len() && is_hidden(#[trigger] names[i]@)
}

impl Entry {
    /// Whether the entry is excluded from a run: it is where its own name,
    /// or that of a directory on the way to it from the destination root,
    /// starts with a dot. The root's own name is not on that way.
    pub open spec fn excluded(&self) -> bool {
        any_hidden(components(self.short_path))
    }

    /// Describes the node at `path`, found while walking `root`. There is no
    /// entry for a path that does not lie below `root`.
    pub fn new(root: &PathBuf, path: PathBuf, is_dir: bool) -> (entry: Option<Entry>)
        ensures
            entry == match stripped(path, *root) {
                Some(rest) => Some(Entry { path, short_path: rest, is_dir }),
                None => None,
            },
    {
        match strip_prefix(&path, root) {
            Some(rest) => Some(Entry { path, short_path: rest, is_dir }),
            None => None,
        }
    }

    /// Tells whether the entry is excluded from a run.
    pub fn is_excluded(&self) -> (excluded: bool)
        ensures
            excluded == self.excluded(),
    {
        let names = components_of(&self.short_path);
        hidden_among(&names)
    }
}

/// Tells whether `name` is hidden.
pub fn hidden(name: &str) -> (hides: bool)
    ensures
        hides == is_hidden(name@),
{
    name.unicode_len() > 0 && name.get_char(0) == '.'
}

/// Tells whether one of `names` is hidden.
pub fn hidden_among(names: &Vec<String>) -> (hides: bool)
    ensures
        hides == any_hidden(names@),
{
    let mut at: usize = 0;
    while at < names.len()
        invariant
            at <= names.len(),
            forall|i: int| 0 <= i < at ==> !is_hidden(#[trigger] names@[i]@),
        decreases names.len() - at,
    {
        if hidden(names[at].as_str()) {
            return true;
        }
        at = at + 1;
    }
    false
}

/// Sorts out what a walk hands over. Returns the entry where it is one to
/// work on, that is a file, and the notice of a failure where the walk failed.
pub fn filter_error(value: Result<Entry, WalkError>) -> (kept: (Option<Entry>, Option<Notice>))
    ensures
        kept == match value {
            Ok(entry) => (if entry.is_dir { None } else { Some(entry) }, None),
            Err(error) => (None, Some(Notice::WalkError(error))),
        },
{
    match value {
        Ok(entry) => {
            if entry.is_dir {
                (None, None)
            } else {
                (Some(entry), None)
            }
        },
        Err(error) => (None, Some(Notice::WalkError(error))),
    }
}

} // verus!
