//! Errors of task configuration and execution.
use vstd::prelude::*;

verus! {

/// Errors that can occur during task configuration and execution.
#[derive(Debug, PartialEq)]
pub enum TaskError {
    /// Input/output operation failed (spawning, pipes, missing command).
    IO(String),
    /// Process handle operation failed (process id, waiting, joining watchers).
    Handle(String),
    /// Inter-task channel failure (event, stdin or termination channel).
    Channel(String),
    /// The task configuration is invalid.
    InvalidConfiguration(String),
    /// A process control request could not be carried out.
    Control(String),
    /// Application-specific or unexpected error.
    Custom(String),
}

impl Clone for TaskError {
    fn clone(&self) -> (r: TaskError)
        ensures
            r == *self,
    {
        match self {
            TaskError::IO(m) => TaskError::IO(m.clone()),
            TaskError::Handle(m) => TaskError::Handle(m.clone()),
            TaskError::Channel(m) => TaskError::Channel(m.clone()),
            TaskError::InvalidConfiguration(m) => TaskError::InvalidConfiguration(m.clone()),
            TaskError::Control(m) => TaskError::Control(m.clone()),
            TaskError::Custom(m) => TaskError::Custom(m.clone()),
        }
    }
}

impl TaskError {
    /// The message carried by the error.
    pub open spec fn message(&self) -> Seq<char> {
        match self {
            TaskError::IO(m) => m@,
            TaskError::Handle(m) => m@,
            TaskError::Channel(m) => m@,
            TaskError::InvalidConfiguration(m) => m@,
            TaskError::Control(m) => m@,
            TaskError::Custom(m) => m@,
        }
    }

    /// The display text of the error: a kind prefix followed by the message.
    pub open spec fn text(&self) -> Seq<char> {
        match self {
            TaskError::IO(m) => "IO error: "@ + m@,
            TaskError::Handle(m) => "Handle error: "@ + m@,
            TaskError::Channel(m) => "Channel error: "@ + m@,
            TaskError::InvalidConfiguration(m) => "Invalid configuration: "@ + m@,
            TaskError::Control(m) => "Control error: "@ + m@,
            TaskError::Custom(m) => "Custom error: "@ + m@,
        }
    }

    /// The display text of the error.
    pub fn to_string(&self) -> (s: String)
        ensures
            s@ == self.text(),
    {
        match self {
            TaskError::IO(m) => crate::text::cat2("IO error: ", m.as_str()),
            TaskError::Handle(m) => crate::text::cat2("Handle error: ", m.as_str()),
            TaskError::Channel(m) => crate::text::cat2("Channel error: ", m.as_str()),
            TaskError::InvalidConfiguration(m) => crate::text::cat2(
                "Invalid configuration: ",
                m.as_str(),
            ),
            TaskError::Control(m) => crate::text::cat2("Control error: ", m.as_str()),
            TaskError::Custom(m) => crate::text::cat2("Custom error: ", m.as_str()),
        }
    }
}

/// `r` is the outcome that a validation check `chk` describes: `Ok` when the
/// check finds nothing, else an `InvalidConfiguration` error with the check's message.
pub open spec fn reports(r: Result<(), TaskError>, chk: Option<Seq<char>>) -> bool {
    match r {
        Ok(()) => chk is None,
        Err(TaskError::InvalidConfiguration(m)) => chk == Some(m@),
        Err(_) => false,
    }
}

/// Turns the message of a failed check into the error that reports it.
pub fn invalid(msg: String) -> (r: Result<(), TaskError>)
    ensures
        reports(r, Some(msg@)),
{
    Err(TaskError::InvalidConfiguration(msg))
}

} // verus!
