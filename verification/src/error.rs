//! The conditions that end a search. None of them is recovered from.

use vstd::prelude::*;
use vstd::string::*;
use crate::evaluator::ArithmeticOverflow;

verus! {

/// The exit status of a run that ended in a fatal condition.
pub const EXIT_FAILURE: i32 = 1;

/// The exit status of a run that went through.
pub const EXIT_SUCCESS: i32 = 0;

/// A fatal condition.
#[derive(Debug, Clone, Copy, PartialEq, Eq, Structural)]
pub enum SearchError {
    /// The checkpoint holds something other than a number.
    ConfigParse,
    /// An argument is not a number.
    ArgumentParse,
    /// An evaluation, or the step to the next candidate, left the 128-bit
    /// range.
    Overflow(ArithmeticOverflow),
    /// The checkpoint could not be written.
    PersistenceWrite,
}

impl SearchError {
    /// The diagnostic line for this condition.
    pub open spec fn message_text(self) -> Seq<char> {
        match self {
            SearchError::ConfigParse => "Error: non-integer argument found in record file"@,
            SearchError::ArgumentParse => "Error: non-integer argument passed"@,
            SearchError::Overflow(ArithmeticOverflow::Multiplication) =>
                "Error: multiplication overflow"@,
            SearchError::Overflow(ArithmeticOverflow::Addition) => "Error: addition overflow"@,
            SearchError::Overflow(ArithmeticOverflow::IterationCount) =>
                "Error: iteration count overflow"@,
            SearchError::PersistenceWrite => "Error: failed to write checkpoint"@,
        }
    }

    /// Writes the diagnostic line for this condition.
    pub fn message(&self) -> (line: String)
        ensures
            line@ == self.message_text(),
    {
        let text = match self {
            SearchError::ConfigParse => "Error: non-integer argument found in record file",
            SearchError::ArgumentParse => "Error: non-integer argument passed",
            SearchError::Overflow(ArithmeticOverflow::Multiplication) =>
                "Error: multiplication overflow",
            SearchError::Overflow(ArithmeticOverflow::Addition) => "Error: addition overflow",
            SearchError::Overflow(ArithmeticOverflow::IterationCount) =>
                "Error: iteration count overflow",
            SearchError::PersistenceWrite => "Error: failed to write checkpoint",
        };
        String::from_str(text)
    }

    /// The exit status that this condition ends the process with.
    pub fn exit_code(&self) -> (code: i32)
        ensures
            code == EXIT_FAILURE,
    {
        EXIT_FAILURE
    }
}

} // verus!
