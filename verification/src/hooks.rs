//! What a run has to tell, and who is told.

use std::path::PathBuf;
use vstd::prelude::*;
use crate::entry::WalkError;

verus! {

/// Something that happened to one file, or to the walk, during a run.
#[derive(Debug)]
pub enum Notice {
    /// The file at this path was overwritten with its counterpart.
    Updated(PathBuf),
    /// The file at this path has the size of its counterpart and was left alone.
    Skipped(PathBuf),
    /// Work on the file at this path failed, and the file was given up.
    IoError(PathBuf, std::io::Error),
    /// The walk could not hand out an entry.
    WalkError(WalkError),
}

/// Describes how to observe an update. None of the hooks can stop a run.
pub trait DirUpdate {
    /// What being told of `notice` does to an observer: `after` is what
    /// `self` has become. Every hook answers to it for its own kind of
    /// notice. It promises nothing unless an observer says more.
    open spec fn told(&self, notice: Notice, after: &Self) -> bool {
        true
    }

    /// Hook to handle change to file.
    fn on_new_file_update(&mut self, file: &PathBuf)
        ensures
            old(self).told(Notice::Updated(*file), final(self)),
    ;

    /// Hook to handle no change to file.
    fn on_new_file_skip(&mut self, file: &PathBuf)
        ensures
            old(self).told(Notice::Skipped(*file), final(self)),
    ;

    /// General error handler.
    fn on_io_error(&mut self, file: &PathBuf, error: std::io::Error)
        ensures
            old(self).told(Notice::IoError(*file, error), final(self)),
    ;

    /// Error handler for the walk over the destination tree.
    fn on_walk_error(&mut self, error: WalkError)
        ensures
            old(self).told(Notice::WalkError(error), final(self)),
    ;
}

impl Notice {
    /// Hands the notice to the hook that is there for it: the observer is
    /// told of this notice, once, and of nothing else.
    pub fn deliver<H: DirUpdate>(self, hooks: &mut H)
        ensures
            old(hooks).told(self, final(hooks)),
    {
        match self {
            Notice::Updated(file) => hooks.on_new_file_update(&file),
            Notice::Skipped(file) => hooks.on_new_file_skip(&file),
            Notice::IoError(file, error) => hooks.on_io_error(&file, error),
            Notice::WalkError(error) => hooks.on_walk_error(error),
        }
    }
}

} // verus!
