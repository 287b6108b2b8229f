//! The one error of the boundary: a message in words.
use vstd::prelude::*;
use vstd::string::to_string_from_display_ensures;

verus! {

/// What went wrong, as a message for a human reader.
#[derive(Clone, Debug, PartialEq, Eq)]
pub struct Error {
    pub message: String,
}

impl Error {
    /// An error with the given message.
    pub fn new(message: String) -> (error: Error)
        ensures
            error.message == message,
    {
        Error { message }
    }

    /// Wraps a failure of the writer that an escaping operation wrote to:
    /// the message is the failure's own description of itself.
    pub fn from(failure: std::io::Error) -> (error: Error)
        ensures
            to_string_from_display_ensures::<std::io::Error>(&failure, error.message),
    {
        Error::new(failure.to_string())
    }
}

} // verus!
