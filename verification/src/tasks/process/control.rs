//! Control actions that can be applied to a running process.
use vstd::prelude::*;
use crate::tasks::error::TaskError;

verus! {

/// Actions that can be performed on a process.
#[derive(Debug, Clone, Copy, PartialEq, Eq, Structural)]
pub enum ProcessControlAction {
    /// Stop process execution.
    Stop,
    /// Pause process execution.
    Pause,
    /// Resume paused process execution.
    Resume,
}

/// Stopping, pausing and resuming a process; each request is one action.
/// An implementation tells, as `performed`, which outcomes and which states
/// after it an action may have from a given state.
pub trait ProcessControl: Sized {
    /// Performing `action` from this state may leave `after` and report `r`.
    spec fn performed(&self, action: ProcessControlAction, after: Self, r: Result<(), TaskError>) -> bool;

    /// Stops the process: performs the Stop action.
    fn stop_process(&mut self) -> (r: Result<(), TaskError>)
        ensures
            old(self).performed(ProcessControlAction::Stop, *final(self), r),
    {
        self.perform_process_action(ProcessControlAction::Stop)
    }

    /// Pauses the process: performs the Pause action.
    fn pause_process(&mut self) -> (r: Result<(), TaskError>)
        ensures
            old(self).performed(ProcessControlAction::Pause, *final(self), r),
    {
        self.perform_process_action(ProcessControlAction::Pause)
    }

    /// Resumes the paused process: performs the Resume action.
    fn resume_process(&mut self) -> (r: Result<(), TaskError>)
        ensures
            old(self).performed(ProcessControlAction::Resume, *final(self), r),
    {
        self.perform_process_action(ProcessControlAction::Resume)
    }

    /// Performs `action` on the process.
    fn perform_process_action(&mut self, action: ProcessControlAction) -> (r: Result<(), TaskError>)
        ensures
            old(self).performed(action, *final(self), r),
    ;
}

} // verus!
