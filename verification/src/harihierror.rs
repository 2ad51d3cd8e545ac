//! The failures of the screencopy backend.

use vstd::prelude::*;

verus! {

/// The failures of the screencopy backend: at start-up, or while the event
/// queue is worked. The text says what was being done.
#[derive(Debug, Clone, PartialEq, Eq)]
pub enum HarihiError {
    InitFailed(String),
    QueueError(String),
}

impl HarihiError {
    /// The text that describes this kind of failure.
    pub open spec fn spec_message(self) -> Seq<char> {
        match self {
            HarihiError::InitFailed(_) => "Init Failed"@,
            HarihiError::QueueError(_) => "Error during queue"@,
        }
    }

    /// The text that describes this kind of failure.
    pub fn message(&self) -> (s: &'static str)
        ensures
            s@ == self.spec_message(),
    {
        match self {
            HarihiError::InitFailed(_) => "Init Failed",
            HarihiError::QueueError(_) => "Error during queue",
        }
    }
}

} // verus!
