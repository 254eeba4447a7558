//! The lines by which failures are told to a reader.

use std::path::PathBuf;
use vstd::prelude::*;
use vstd::string::to_string_from_display_ensures;
use crate::entry::WalkError;
use crate::paths::{path_text, shown};

verus! {

/// The line for a failure at the file shown as `file`, with `cause`.
pub open spec fn io_error_text(file: Seq<char>, cause: Seq<char>) -> Seq<char> {
    file + ": Error accessing: "@ + cause
}

/// The line for a failure of the walk, by what is known of it.
pub open spec fn walk_error_text(file: Option<Seq<char>>, cause: Option<Seq<char>>) -> Seq<char> {
    match (file, cause) {
        (Some(file), Some(cause)) => file + ": Cannot access file. Error: "@ + cause,
        (Some(file), None) => file + ": Cannot access file"@,
        (None, Some(cause)) => "I/O Error: "@ + cause,
        (None, None) => "Unknown error happened"@,
    }
}

/// The characters of a piece of text that may be absent.
pub open spec fn text_of(text: Option<&str>) -> Option<Seq<char>> {
    match text {
        Some(text) => Some(text@),
        None => None,
    }
}

/// Builds the line that tells of a failure at `file`, given as text, with
/// the text of its cause.
pub fn io_error_line(file: &str, cause: &str) -> (line: String)
    ensures
        line@ == io_error_text(file@, cause@),
{
    String::from_str(file).concat(": Error accessing: ").concat(cause)
}

/// Builds the line that tells of a failure of the walk, given the text of
/// the path and of the cause as far as they are known.
pub fn walk_error_line(file: Option<&str>, cause: Option<&str>) -> (line: String)
    ensures
        line@ == walk_error_text(text_of(file), text_of(cause)),
{
    match (file, cause) {
        (Some(file), Some(cause)) => String::from_str(file).concat(
            ": Cannot access file. Error: ",
        ).concat(cause),
        (Some(file), None) => String::from_str(file).concat(": Cannot access file"),
        (None, Some(cause)) => String::from_str("I/O Error: ").concat(cause),
        (None, None) => String::from_str("Unknown error happened"),
    }
}

/// Builds the line that tells of `error` at `file`: the path as it is
/// displayed, and the text that the error shows of itself.
pub fn io_error_message(file: &PathBuf, error: &std::io::Error) -> (line: String)
    ensures
        exists|cause: String| #[trigger]
            to_string_from_display_ensures::<std::io::Error>(error, cause) && line@
                == io_error_text(shown(*file), cause@),
{
    let file_text = path_text(file);
    let cause = error.to_string();
    io_error_line(file_text.as_str(), cause.as_str())
}

impl WalkError {
    /// The line for this failure, given the text of its cause where it has
    /// one.
    pub open spec fn shown_with(&self, cause: Seq<char>) -> Seq<char> {
        walk_error_text(
            match self.path {
                Some(path) => Some(shown(path)),
                None => None,
            },
            match self.io_error {
                Some(_) => Some(cause),
                None => None,
            },
        )
    }

    /// Builds the line that tells of this failure: the path as it is
    /// displayed and the text that the cause shows of itself, as far as each
    /// is known.
    pub fn message(&self) -> (line: String)
        ensures
            match self.io_error {
                Some(error) => exists|cause: String| #[trigger]
                    to_string_from_display_ensures::<std::io::Error>(&error, cause) && line@
                        == self.shown_with(cause@),
                None => line@ == self.shown_with(Seq::empty()),
            },
    {
        match (&self.path, &self.io_error) {
            (Some(path), Some(error)) => {
                let file_text = path_text(path);
                let cause = error.to_string();
                walk_error_line(Some(file_text.as_str()), Some(cause.as_str()))
            },
            (Some(path), None) => {
                let file_text = path_text(path);
                walk_error_line(Some(file_text.as_str()), None)
            },
            (None, Some(error)) => {
                let cause = error.to_string();
                walk_error_line(None, Some(cause.as_str()))
            },
            (None, None) => walk_error_line(None, None),
        }
    }
}

} // verus!
