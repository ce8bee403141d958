//! What went wrong, in words.

use vstd::prelude::*;

verus! {

/// A failure, told by its message.
#[derive(Debug, Clone, PartialEq, Eq)]
pub struct Error {
    pub message: String,
}

impl View for Error {
    type V = Seq<char>;

    open spec fn view(&self) -> Seq<char> {
        self.message@
    }
}

impl Error {
    /// The failure with this message.
    pub fn new(message: &str) -> (error: Error)
        ensures
            error@ == message@,
    {
        Error { message: message.to_string() }
    }

    /// The failure that puts `context` before what `cause` says.
    pub fn wrap(context: &str, cause: &Error) -> (error: Error)
        ensures
            error@ == context@ + cause@,
    {
        Error { message: context.to_string().concat(cause.message.as_str()) }
    }
}

/// What a result says: the view of the value, or the message of the failure.
pub open spec fn outcome<T: View>(result: Result<T, Error>) -> Result<T::V, Seq<char>> {
    match result {
        Ok(value) => Ok(value@),
        Err(error) => Err(error@),
    }
}

} // verus!
