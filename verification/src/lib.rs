//! Keeps a destination directory tree up to date with a source tree.
//!
//! For every file below the destination root, a run looks for the file at
//! the same relative path below the source root and, where the two differ in
//! size, copies the source file over the destination file. The library
//! decides; whoever drives a [`Session`] does the outside work it asks for.

pub mod entry;
pub mod error;
pub mod hooks;
pub mod laws;
pub mod paths;
pub mod report;
pub mod session;
pub mod walk;

pub use entry::{filter_error, hidden, hidden_among, Entry, WalkError};
pub use error::UpdateError;
pub use hooks::{DirUpdate, Notice};
pub use report::{io_error_line, io_error_message, walk_error_line};
pub use session::{Phase, Reply, Request, Session, State};
pub use walk::{reply_to, skip_hidden};
