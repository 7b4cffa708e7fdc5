//! Events emitted during a task's lifecycle and the reasons a task stops.
use vstd::prelude::*;
use crate::tasks::config::StreamSource;
use crate::tasks::error::TaskError;
use crate::tasks::process::control::ProcessControlAction;

verus! {

/// Events emitted during task execution. Timestamps are nanoseconds since the
/// Unix epoch.
#[derive(Debug, PartialEq)]
pub enum TaskEvent {
    /// The process has been spawned and is running.
    Started {
        /// Operating system process id.
        process_id: u32,
        /// When the task was created.
        created_at: u64,
        /// When the process started running.
        running_at: u64,
    },
    /// One line of output, without its trailing newline.
    Output {
        /// The output line.
        line: String,
        /// The stream the line came from.
        src: StreamSource,
    },
    /// The ready indicator was seen in the configured stream.
    Ready,
    /// The process has completed.
    Stopped {
        /// `Some(code)` when the process exited by itself, `None` when terminated.
        exit_code: Option<i32>,
        /// Why the process stopped.
        reason: TaskStopReason,
        /// When the process finished.
        finished_at: u64,
        /// The signal that ended the process, if one did.
        signal: Option<i32>,
    },
    /// An error occurred during task execution.
    Error {
        /// The error.
        error: TaskError,
    },
    /// A process control action was applied.
    ProcessControl {
        /// The action.
        action: ProcessControlAction,
    },
}

/// Reason why a task stopped executing.
#[derive(Debug, PartialEq)]
pub enum TaskStopReason {
    /// The process ran to completion.
    Finished,
    /// The process was terminated for the given reason.
    Terminated(TaskTerminateReason),
    /// The process stopped because of an error.
    Error(TaskError),
}

impl Clone for TaskEvent {
    fn clone(&self) -> (r: TaskEvent)
        ensures
            r == *self,
    {
        match self {
            TaskEvent::Started { process_id, created_at, running_at } => TaskEvent::Started {
                process_id: *process_id,
                created_at: *created_at,
                running_at: *running_at,
            },
            TaskEvent::Output { line, src } => TaskEvent::Output { line: line.clone(), src: *src },
            TaskEvent::Ready => TaskEvent::Ready,
            TaskEvent::Stopped { exit_code, reason, finished_at, signal } => TaskEvent::Stopped {
                exit_code: *exit_code,
                reason: reason.clone(),
                finished_at: *finished_at,
                signal: *signal,
            },
            TaskEvent::Error { error } => TaskEvent::Error { error: error.clone() },
            TaskEvent::ProcessControl { action } => TaskEvent::ProcessControl { action: *action },
        }
    }
}

impl Clone for TaskStopReason {
    fn clone(&self) -> (r: TaskStopReason)
        ensures
            r == *self,
    {
        match self {
            TaskStopReason::Finished => TaskStopReason::Finished,
            TaskStopReason::Terminated(t) => TaskStopReason::Terminated(*t),
            TaskStopReason::Error(e) => TaskStopReason::Error(e.clone()),
        }
    }
}

/// The name under which a stop reason is written as a schema union.
pub type TaskEventStopReason = TaskStopReason;

/// Reason for terminating a running task.
#[derive(Debug, Clone, Copy, PartialEq, Eq, Structural)]
pub enum TaskTerminateReason {
    /// The configured timeout elapsed.
    Timeout,
    /// Terminated during cleanup.
    Cleanup,
    /// Terminated because the tasks it depends on finished.
    DependenciesFinished,
    /// Terminated at the user's request.
    UserRequested,
    /// Terminated because of an internal error.
    InternalError,
}

} // verus!
