//! Errors of process group operations.
use vstd::prelude::*;

verus! {

/// Error type for process group operations.
#[derive(Debug)]
pub enum ProcessGroupError {
    /// The process group could not be created.
    CreationFailed(String),
    /// A process could not be placed in the group.
    AssignmentFailed(String),
    /// A signal could not be sent to the group.
    SignalFailed(String),
}

impl ProcessGroupError {
    /// The display text of the error.
    pub open spec fn text(&self) -> Seq<char> {
        match self {
            ProcessGroupError::CreationFailed(m) => "Failed to create process group/job: "@ + m@,
            ProcessGroupError::AssignmentFailed(m) => "Failed to assign process to group/job: "@ + m@,
            ProcessGroupError::SignalFailed(m) => "Failed to send signal to process group: "@ + m@,
        }
    }

    /// The display text of the error.
    pub fn to_string(&self) -> (s: String)
        ensures
            s@ == self.text(),
    {
        match self {
            ProcessGroupError::CreationFailed(m) => crate::text::cat2(
                "Failed to create process group/job: ",
                m.as_str(),
            ),
            ProcessGroupError::AssignmentFailed(m) => crate::text::cat2(
                "Failed to assign process to group/job: ",
                m.as_str(),
            ),
            ProcessGroupError::SignalFailed(m) => crate::text::cat2(
                "Failed to send signal to process group: ",
                m.as_str(),
            ),
        }
    }
}

/// The message of a signalling outcome: `Some(Ok)` for success,
/// `Some(Err(m))` for `SignalFailed(m)`, `None` for any other error.
pub open spec fn signal_failed_view(r: Result<(), ProcessGroupError>) -> Option<Result<(), Seq<char>>> {
    match r {
        Ok(()) => Some(Ok(())),
        Err(ProcessGroupError::SignalFailed(m)) => Some(Err(m@)),
        Err(_) => None,
    }
}

} // verus!
