//! The error that decoding and validation hand to their callers.

use vstd::prelude::*;

verus! {

/// Why an operation of this library did not complete.
#[derive(Clone, Copy, Debug, PartialEq, Eq, Structural)]
pub enum Error {
    /// A nested record could not be decoded from its document.
    NestedRecord,
}

impl Error {
    /// The text that [`Error::message`] returns.
    pub open spec fn message_text(self) -> Seq<char> {
        match self {
            Error::NestedRecord => "a nested record could not be decoded"@,
        }
    }

    /// A sentence that says what went wrong.
    pub fn message(&self) -> (text: String)
        ensures
            text@ == self.message_text(),
    {
        match self {
            Error::NestedRecord => "a nested record could not be decoded".to_owned(),
        }
    }
}

} // verus!
