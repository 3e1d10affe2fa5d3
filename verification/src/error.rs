//! The library's error type.

use vstd::prelude::*;

verus! {

/// What can go wrong inside the job core.
#[derive(Debug)]
pub enum JobError {
    /// A failure described only by its message.
    Generic(String),
}

impl JobError {
    /// The message carried by the error.
    pub open spec fn message_view(self) -> Seq<char> {
        match self {
            JobError::Generic(msg) => msg@,
        }
    }

    /// The message carried by the error, as an owned string.
    pub fn message(&self) -> (text: String)
        ensures
            text@ == self.message_view(),
    {
        match self {
            JobError::Generic(msg) => msg.clone(),
        }
    }
}

} // verus!
