//! The failures the core can report. Each variant is tied by the
//! contracts of the functions that return it to exactly the inputs on
//! which it arises.

use vstd::prelude::*;

verus! {

/// What went wrong inside the core.
#[derive(Debug, Copy, Clone, PartialEq, Eq, Structural)]
pub enum CoreError {
    /// The tokenizer could not be constructed, so no text can be sized.
    Tokenization,
    /// The staged diff holds no tokens: there is nothing to commit.
    EmptyDiff,
    /// A streamed event named a candidate index at or beyond the candidate
    /// count, which the protocol forbids.
    DeltaIndexOutOfRange,
}

impl CoreError {
    /// A single human-readable line for the top-level handler to print.
    pub fn describe(&self) -> (s: String)
        ensures
            self == CoreError::Tokenization ==> s@ == "Unable to construct the tokenizer."@,
            self == CoreError::EmptyDiff ==> s@ == "No staged files. Please stage the files you want to commit."@,
            self == CoreError::DeltaIndexOutOfRange ==> s@ == "The response stream named a candidate that does not exist."@,
    {
        match self {
            CoreError::Tokenization => String::from_str("Unable to construct the tokenizer."),
            CoreError::EmptyDiff => String::from_str(
                "No staged files. Please stage the files you want to commit.",
            ),
            CoreError::DeltaIndexOutOfRange => String::from_str(
                "The response stream named a candidate that does not exist.",
            ),
        }
    }
}

} // verus!
