//! The error type surfaced by step execution.

use vstd::prelude::*;

verus! {

/// A descriptive failure from executing one step. The message is the whole
/// error surface: callers print it and exit non-zero.
#[derive(Debug, Clone, PartialEq)]
pub struct OpError {
    pub message: String,
}

impl OpError {
    /// Wrap a message.
    pub fn new(message: String) -> (r: OpError)
        ensures
            r.message@ == message@,
    {
        OpError { message }
    }
}

} // verus!
