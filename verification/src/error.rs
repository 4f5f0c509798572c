//! What can be reported to the user of `rudderc` when a run cannot go on.

use crate::path::FilePath;
use vstd::prelude::*;

verus! {

/// Why a run of `rudderc` cannot go on.
#[derive(Debug, PartialEq, Eq)]
pub enum Error {
    /// Something that a sentence says.
    Message(String),
    /// Something that went wrong with the source named `file`.
    InFile { file: String, message: String },
    /// A path that names no file; `invalid_file_message` says so.
    InvalidFile(FilePath),
}

/// What an `Error` says.
pub enum ErrorView {
    Message(Seq<char>),
    InFile { file: Seq<char>, message: Seq<char> },
    InvalidFile(Seq<u8>),
}

impl View for Error {
    type V = ErrorView;

    open spec fn view(&self) -> ErrorView {
        match *self {
            Error::Message(message) => ErrorView::Message(message@),
            Error::InFile { file, message } => ErrorView::InFile {
                file: file@,
                message: message@,
            },
            Error::InvalidFile(path) => ErrorView::InvalidFile(path@),
        }
    }
}

impl Error {
    /// The error that a sentence says.
    pub fn new(message: String) -> (r: Error)
        ensures
            r@ == ErrorView::Message(message@),
    {
        Error::Message(message)
    }

    /// What an error of the kind `InvalidFile` says, `shown` being how its path is shown.
    pub fn invalid_file_message(shown: &str) -> (r: String)
        ensures
            r@ == shown@ + " file does not exist or is invalid"@,
    {
        crate::text::concat(shown, " file does not exist or is invalid")
    }
}

} // verus!
