//! One synchronization run as a machine that asks for outside work and
//! decides on each answer.

use std::path::PathBuf;
use vstd::prelude::*;
use crate::entry::{filter_error, Entry, WalkError};
use crate::error::UpdateError;
use crate::hooks::{DirUpdate, Notice};
use crate::paths::{join, joined};

verus! {

/// Where a run stands.
#[derive(Debug)]
pub enum Phase {
    /// Waiting to learn whether the source root is a directory.
    CheckingFrom,
    /// Waiting to learn whether the destination root is a directory.
    CheckingTo,
    /// Waiting for the next item of the walk over the destination tree.
    Walking,
    /// Waiting to learn whether the counterpart of `to_path` could be opened.
    Opening { to_path: PathBuf, from_path: PathBuf },
    /// Waiting for the size of the opened source file.
    SizingSource { to_path: PathBuf, from_path: PathBuf },
    /// Waiting for the size of the destination file.
    SizingDest { to_path: PathBuf, from_size: u64 },
    /// Waiting for the destination file to be created anew.
    Creating { to_path: PathBuf },
    /// Waiting for the copy into the destination file to end.
    Copying { to_path: PathBuf },
    /// Every entry has been dealt with.
    Done,
    /// The run was given up before it touched anything.
    Failed(UpdateError),
}

/// The outside work that a run waits for.
#[derive(Debug)]
pub enum Request<'a> {
    /// Tell whether this path exists and is a directory.
    IsDir(&'a PathBuf),
    /// Hand over the next item of the walk below this root.
    NextEntry(&'a PathBuf),
    /// Open the file at this path for reading.
    Open(&'a PathBuf),
    /// Read the size of the file that was opened last.
    SourceSize,
    /// Read the size of the file at this path.
    DestSize(&'a PathBuf),
    /// Create the file at this path, or empty it, for writing.
    Create(&'a PathBuf),
    /// Copy all of the opened source file into the created file.
    Copy,
    /// Nothing: the run is over.
    Finish,
}

/// What the outside work came to.
#[derive(Debug)]
pub enum Reply {
    /// Whether the path exists and is a directory.
    IsDir(bool),
    /// The next item of the walk, or `None` at its end.
    Walked(Option<Result<Entry, WalkError>>),
    /// Whether the file could be opened.
    Opened(bool),
    /// The size that was read, or why it could not be read.
    Size(Result<u64, std::io::Error>),
    /// Whether the file could be created.
    Created(Result<(), std::io::Error>),
    /// How many bytes were copied, or why the copy failed.
    Copied(Result<u64, std::io::Error>),
}

/// The mathematical content of a run: its two roots, its phase, and the
/// number of files it has updated so far.
pub struct State {
    pub from: PathBuf,
    pub to: PathBuf,
    pub phase: Phase,
    pub updated: nat,
}

impl State {
    /// A run that has not asked for anything yet.
    pub open spec fn initial(from: PathBuf, to: PathBuf) -> State {
        State { from, to, phase: Phase::CheckingFrom, updated: 0 }
    }

    /// The same run in another phase.
    pub open spec fn at(self, phase: Phase) -> State {
        State { phase, ..self }
    }

    /// The outside work that the run waits for.
    pub open spec fn request(&self) -> Request<'_> {
        match &self.phase {
            Phase::CheckingFrom => Request::IsDir(&self.from),
            Phase::CheckingTo => Request::IsDir(&self.to),
            Phase::Walking => Request::NextEntry(&self.to),
            Phase::Opening { from_path, .. } => Request::Open(from_path),
            Phase::SizingSource { .. } => Request::SourceSize,
            Phase::SizingDest { to_path, .. } => Request::DestSize(to_path),
            Phase::Creating { to_path } => Request::Create(to_path),
            Phase::Copying { .. } => Request::Copy,
            Phase::Done => Request::Finish,
            Phase::Failed(_) => Request::Finish,
        }
    }

    /// The run after `reply`, and what there is to tell about it. A reply
    /// that does not answer the pending request changes nothing.
    pub open spec fn next(self, reply: Reply) -> (State, Option<Notice>) {
        match (self.phase, reply) {
            (Phase::CheckingFrom, Reply::IsDir(found)) => if found {
                (self.at(Phase::CheckingTo), None)
            } else {
                (self.at(Phase::Failed(UpdateError::InvalidFrom)), None)
            },
            (Phase::CheckingTo, Reply::IsDir(found)) => if found {
                (self.at(Phase::Walking), None)
            } else {
                (self.at(Phase::Failed(UpdateError::InvalidTo)), None)
            },
            (Phase::Walking, Reply::Walked(None)) => (self.at(Phase::Done), None),
            (Phase::Walking, Reply::Walked(Some(Err(error)))) => (
                self,
                Some(Notice::WalkError(error)),
            ),
            (Phase::Walking, Reply::Walked(Some(Ok(entry)))) => if entry.is_dir
                || entry.excluded() {
                (self, None)
            } else {
                (
                    self.at(
                        Phase::Opening {
                            to_path: entry.path,
                            from_path: joined(self.from, entry.short_path),
                        },
                    ),
                    None,
                )
            },
            (Phase::Opening { to_path, from_path }, Reply::Opened(opened)) => if opened {
                (self.at(Phase::SizingSource { to_path, from_path }), None)
            } else {
                (self.at(Phase::Walking), None)
            },
            (Phase::SizingSource { to_path, from_path }, Reply::Size(Ok(size))) => (
                self.at(Phase::SizingDest { to_path, from_size: size }),
                None,
            ),
            (Phase::SizingSource { to_path, from_path }, Reply::Size(Err(error))) => (
                self.at(Phase::Walking),
                Some(Notice::IoError(from_path, error)),
            ),
            (Phase::SizingDest { to_path, from_size }, Reply::Size(Ok(size))) => if size
                == from_size {
                (self.at(Phase::Walking), Some(Notice::Skipped(to_path)))
            } else {
                (self.at(Phase::Creating { to_path }), None)
            },
            (Phase::SizingDest { to_path, from_size }, Reply::Size(Err(error))) => (
                self.at(Phase::Walking),
                Some(Notice::IoError(to_path, error)),
            ),
            (Phase::Creating { to_path }, Reply::Created(Ok(_))) => (
                self.at(Phase::Copying { to_path }),
                None,
            ),
            (Phase::Creating { to_path }, Reply::Created(Err(error))) => (
                self.at(Phase::Walking),
                Some(Notice::IoError(to_path, error)),
            ),
            (Phase::Copying { to_path }, Reply::Copied(Ok(_))) => (
                State { phase: Phase::Walking, updated: self.updated + 1, ..self },
                Some(Notice::Updated(to_path)),
            ),
            (Phase::Copying { to_path }, Reply::Copied(Err(error))) => (
                self.at(Phase::Walking),
                Some(Notice::IoError(to_path, error)),
            ),
            _ => (self, None),
        }
    }

    /// How the run ended, once it has: with the number of files it updated,
    /// or with the reason why it did nothing.
    pub open spec fn result(self) -> Option<Result<nat, UpdateError>> {
        match self.phase {
            Phase::Done => Some(Ok(self.updated)),
            Phase::Failed(error) => Some(Err(error)),
            _ => None,
        }
    }
}

/// A synchronization run in progress.
#[derive(Debug)]
pub struct Session {
    from: PathBuf,
    to: PathBuf,
    phase: Phase,
    updated: usize,
}

impl View for Session {
    type V = State;

    closed spec fn view(&self) -> State {
        State { from: self.from, to: self.to, phase: self.phase, updated: self.updated as nat }
    }
}

impl Session {
    /// Starts a run that brings the tree below `to` up to date with the tree
    /// below `from`.
    pub fn begin(from: PathBuf, to: PathBuf) -> (session: Session)
        ensures
            session@ == State::initial(from, to),
    {
        Session { from, to, phase: Phase::CheckingFrom, updated: 0 }
    }

    /// The root of the tree that files are copied from.
    pub fn from(&self) -> (root: &PathBuf)
        ensures
            *root == self@.from,
    {
        &self.from
    }

    /// The root of the tree that is walked and brought up to date.
    pub fn to(&self) -> (root: &PathBuf)
        ensures
            *root == self@.to,
    {
        &self.to
    }

    /// The number of files updated so far.
    pub fn updated(&self) -> (count: usize)
        ensures
            count == self@.updated,
    {
        self.updated
    }

    /// The outside work that the run waits for.
    pub fn request(&self) -> (request: Request<'_>)
        ensures
            request == self@.request(),
    {
        match &self.phase {
            Phase::CheckingFrom => Request::IsDir(&self.from),
            Phase::CheckingTo => Request::IsDir(&self.to),
            Phase::Walking => Request::NextEntry(&self.to),
            Phase::Opening { from_path, .. } => Request::Open(from_path),
            Phase::SizingSource { .. } => Request::SourceSize,
            Phase::SizingDest { to_path, .. } => Request::DestSize(to_path),
            Phase::Creating { to_path } => Request::Create(to_path),
            Phase::Copying { .. } => Request::Copy,
            Phase::Done => Request::Finish,
            Phase::Failed(_) => Request::Finish,
        }
    }

    /// Takes in the answer to the pending request. Returns the run as it
    /// goes on, and what there is to tell the hooks. A run that waits for a
    /// copy to end must have room in its count for one more file.
    pub fn step(self, reply: Reply) -> (turn: (Session, Option<Notice>))
        requires
            self@.phase is Copying ==> self@.updated < usize::MAX,
        ensures
            (turn.0@, turn.1) == self@.next(reply),
    {
        let Session { from, to, phase, updated } = self;
        match (phase, reply) {
            (Phase::CheckingFrom, Reply::IsDir(found)) => {
                let phase = if found {
                    Phase::CheckingTo
                } else {
                    Phase::Failed(UpdateError::InvalidFrom)
                };
                (Session { from, to, phase, updated }, None)
            },
            (Phase::CheckingTo, Reply::IsDir(found)) => {
                let phase = if found {
                    Phase::Walking
                } else {
                    Phase::Failed(UpdateError::InvalidTo)
                };
                (Session { from, to, phase, updated }, None)
            },
            (Phase::Walking, Reply::Walked(None)) => (
                Session { from, to, phase: Phase::Done, updated },
                None,
            ),
            (Phase::Walking, Reply::Walked(Some(item))) => {
                let (kept, notice) = filter_error(item);
                let phase = match kept {
                    Some(entry) => {
                        if !entry.is_excluded() {
                            let from_path = join(&from, &entry.short_path);
                            Phase::Opening { to_path: entry.path, from_path }
                        } else {
                            Phase::Walking
                        }
                    },
                    None => Phase::Walking,
                };
                (Session { from, to, phase, updated }, notice)
            },
            (Phase::Opening { to_path, from_path }, Reply::Opened(opened)) => {
                let phase = if opened {
                    Phase::SizingSource { to_path, from_path }
                } else {
                    Phase::Walking
                };
                (Session { from, to, phase, updated }, None)
            },
            (Phase::SizingSource { to_path, from_path }, Reply::Size(Ok(size))) => (
                Session { from, to, phase: Phase::SizingDest { to_path, from_size: size }, updated },
                None,
            ),
            (Phase::SizingSource { to_path, from_path }, Reply::Size(Err(error))) => (
                Session { from, to, phase: Phase::Walking, updated },
                Some(Notice::IoError(from_path, error)),
            ),
            (Phase::SizingDest { to_path, from_size }, Reply::Size(Ok(size))) => {
                if size == from_size {
                    (
                        Session { from, to, phase: Phase::Walking, updated },
                        Some(Notice::Skipped(to_path)),
                    )
                } else {
                    (Session { from, to, phase: Phase::Creating { to_path }, updated }, None)
                }
            },
            (Phase::SizingDest { to_path, from_size }, Reply::Size(Err(error))) => (
                Session { from, to, phase: Phase::Walking, updated },
                Some(Notice::IoError(to_path, error)),
            ),
            (Phase::Creating { to_path }, Reply::Created(Ok(_))) => (
                Session { from, to, phase: Phase::Copying { to_path }, updated },
                None,
            ),
            (Phase::Creating { to_path }, Reply::Created(Err(error))) => (
                Session { from, to, phase: Phase::Walking, updated },
                Some(Notice::IoError(to_path, error)),
            ),
            (Phase::Copying { to_path }, Reply::Copied(Ok(_))) => (
                Session { from, to, phase: Phase::Walking, updated: updated + 1 },
                Some(Notice::Updated(to_path)),
            ),
            (Phase::Copying { to_path }, Reply::Copied(Err(error))) => (
                Session { from, to, phase: Phase::Walking, updated },
                Some(Notice::IoError(to_path, error)),
            ),
            (phase, _) => (Session { from, to, phase, updated }, None),
        }
    }

    /// Takes in the answer to the pending request as `step` does, and hands
    /// what there is to tell to the hook that is there for it: the observer
    /// is told of the notice of this step where there is one, and is left as
    /// it was where there is none. Returns the run as it goes on.
    pub fn advance<H: DirUpdate>(self, reply: Reply, hooks: &mut H) -> (session: Session)
        requires
            self@.phase is Copying ==> self@.updated < usize::MAX,
        ensures
            session@ == self@.next(reply).0,
            match self@.next(reply).1 {
                Some(notice) => old(hooks).told(notice, final(hooks)),
                None => *final(hooks) == *old(hooks),
            },
    {
        let (session, notice) = self.step(reply);
        match notice {
            Some(notice) => notice.deliver(hooks),
            None => {},
        }
        session
    }

    /// How the run ended: the number of files updated, or why nothing was
    /// done. `None` while the run is still going on.
    pub fn result(self) -> (result: Option<Result<usize, UpdateError>>)
        ensures
            self@.result() == match result {
                Some(Ok(count)) => Some(Ok::<nat, UpdateError>(count as nat)),
                Some(Err(error)) => Some(Err(error)),
                None => None,
            },
    {
        match self.phase {
            Phase::Done => Some(Ok(self.updated)),
            Phase::Failed(error) => Some(Err(error)),
            _ => None,
        }
    }
}

} // verus!
