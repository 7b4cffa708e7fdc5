//! Interfaces for controlling a task and reading its status.
use vstd::prelude::*;
use crate::tasks::error::TaskError;
use crate::tasks::event::TaskTerminateReason;
use crate::tasks::signal::ProcessSignal;
use crate::tasks::state::{ProcessState, TaskState};

verus! {

/// Control over a running task.
pub trait TaskControl {
    /// Requests that the task terminate for `reason`.
    fn terminate_task(&mut self, reason: TaskTerminateReason) -> Result<(), TaskError>;

    /// Sends `signal` to the task's process.
    fn send_signal(&self, signal: ProcessSignal) -> Result<(), TaskError>;
}

/// Read access to a task's status. Timestamps are nanoseconds since the
/// Unix epoch. An implementation gives, as `status`, the snapshot that its
/// getters read, and each getter returns its part of it.
pub trait TaskStatusInfo {
    /// The task's status as a whole: what the getters read.
    spec fn status(&self) -> TaskInformation;

    /// The task's state.
    fn get_task_state(&self) -> (s: TaskState)
        ensures
            s == self.status().task_state,
    ;

    /// The state of the task's process.
    fn get_process_state(&self) -> (s: ProcessState)
        ensures
            s == self.status().process_state,
    ;

    /// The process id while the process runs.
    fn get_process_id(&self) -> (p: Option<u32>)
        ensures
            p == self.status().process_id,
    ;

    /// When the task was created.
    fn get_create_at(&self) -> (t: u64)
        ensures
            t == self.status().created_at,
    ;

    /// When the task started running, if it has.
    fn get_running_at(&self) -> (t: Option<u64>)
        ensures
            t == self.status().running_at,
    ;

    /// When the task finished, if it has.
    fn get_finished_at(&self) -> (t: Option<u64>)
        ensures
            t == self.status().finished_at,
    ;

    /// The exit code, once the process exited by itself.
    fn get_exit_code(&self) -> (c: Option<i32>)
        ensures
            c == self.status().exit_code,
    ;

    /// All of the above in one snapshot: each part as its getter reads it.
    fn get_information(&self) -> (info: TaskInformation)
        ensures
            info == self.status(),
    {
        TaskInformation {
            task_state: self.get_task_state(),
            process_state: self.get_process_state(),
            process_id: self.get_process_id(),
            created_at: self.get_create_at(),
            running_at: self.get_running_at(),
            finished_at: self.get_finished_at(),
            exit_code: self.get_exit_code(),
        }
    }
}

/// A snapshot of a task's status. Timestamps are nanoseconds since the Unix
/// epoch.
#[derive(Debug, PartialEq)]
pub struct TaskInformation {
    /// The task's state.
    pub task_state: TaskState,
    /// The state of the task's process.
    pub process_state: ProcessState,
    /// The process id while the process runs.
    pub process_id: Option<u32>,
    /// When the task was created.
    pub created_at: u64,
    /// When the task started running, if it has.
    pub running_at: Option<u64>,
    /// When the task finished, if it has.
    pub finished_at: Option<u64>,
    /// The exit code, once the process exited by itself.
    pub exit_code: Option<i32>,
}

} // verus!
