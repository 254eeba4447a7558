//! Why a whole run could not proceed.

use vstd::prelude::*;
use vstd::string::to_string_from_display_ensures;

verus! {

/// An I/O failure as the standard library reports it. Nothing here looks
/// inside one: it is carried to whoever reports it.
#[verifier::external_type_specification]
#[verifier::external_body]
pub struct ExIoError(std::io::Error);

/// Describes potential errors.
#[derive(Debug)]
pub enum UpdateError {
    /// Directory from which to copy files is invalid.
    InvalidFrom,
    /// Directory into which to copy files is invalid.
    InvalidTo,
    /// Other I/O errors.
    Io(std::io::Error),
}

impl UpdateError {
    /// The fixed text that belongs to each kind of error.
    pub open spec fn description_text(&self) -> Seq<char> {
        match self {
            UpdateError::InvalidFrom => "Directory from which to copy files doesn't exist or cannot be accessed"@,
            UpdateError::InvalidTo => "Directory into which to copy files doesn't exist or cannot be accessed"@,
            UpdateError::Io(_) => "I/O Error occurred"@,
        }
    }

    /// The text by which the error is shown, given the text of its cause
    /// where it has one.
    pub open spec fn shown_with(&self, cause: Seq<char>) -> Seq<char> {
        match self {
            UpdateError::Io(_) => "I/O Error occurred: "@ + cause,
            _ => self.description_text(),
        }
    }

    /// A short description of the kind of error, without its cause.
    pub fn description(&self) -> (text: &'static str)
        ensures
            text@ == self.description_text(),
    {
        match self {
            UpdateError::InvalidFrom => "Directory from which to copy files doesn't exist or cannot be accessed",
            UpdateError::InvalidTo => "Directory into which to copy files doesn't exist or cannot be accessed",
            UpdateError::Io(_) => "I/O Error occurred",
        }
    }

    /// The text by which the error is shown: its description, followed for
    /// an I/O error by the text that the error shows of itself.
    pub fn to_string(&self) -> (text: String)
        ensures
            match self {
                UpdateError::Io(error) => exists|cause: String| #[trigger]
                    to_string_from_display_ensures::<std::io::Error>(error, cause) && text@
                        == self.shown_with(cause@),
                _ => text@ == self.description_text(),
            },
    {
        match self {
            UpdateError::Io(error) => {
                let cause = error.to_string();
                String::from_str("I/O Error occurred: ").concat(cause.as_str())
            },
            _ => String::from_str(self.description()),
        }
    }
}

} // verus!
