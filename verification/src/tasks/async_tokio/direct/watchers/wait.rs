//! The wait watcher: it waits for the process to exit or for a request to
//! terminate it, and decides the task's result.
use vstd::prelude::*;
use crate::tasks::error::TaskError;
use crate::tasks::event::{TaskStopReason, TaskTerminateReason};

verus! {

/// How waiting on the process ended.
#[derive(Debug)]
pub enum WaitOutcome {
    /// The process exited, with its exit code and, when a signal ended it,
    /// that signal.
    Exited {
        /// The exit code, when the process exited by itself.
        code: Option<i32>,
        /// The signal that ended the process, if one did.
        signal: Option<i32>,
    },
    /// Waiting on the process failed; the system's message.
    WaitFailed(String),
    /// A termination request arrived and the process was killed; the
    /// request's reason, or `None` when the request channel closed.
    Killed(Option<TaskTerminateReason>),
    /// A termination request arrived but killing the process failed; the
    /// system's message.
    KillFailed(String),
}

/// The result of a task: its exit code, why it stopped, and the signal
/// that ended it.
#[derive(Debug)]
pub struct TaskResult {
    /// The exit code, when the process exited by itself.
    pub exit_code: Option<i32>,
    /// Why the task stopped.
    pub reason: TaskStopReason,
    /// The signal that ended the process, if one did.
    pub signal: Option<i32>,
}

/// The result decided for a wait outcome. A kill whose request channel
/// closed counts as termination for cleanup.
pub open spec fn wait_result_spec(task_name: Seq<char>, o: WaitOutcome, r: TaskResult) -> bool {
    match o {
        WaitOutcome::Exited { code, signal } => r == TaskResult {
            exit_code: code,
            reason: TaskStopReason::Finished,
            signal,
        },
        WaitOutcome::WaitFailed(m) => r == TaskResult {
            exit_code: None,
            reason: TaskStopReason::Error(TaskError::Handle(m)),
            signal: None,
        },
        WaitOutcome::Killed(reason) => r == TaskResult {
            exit_code: None,
            reason: TaskStopReason::Terminated(
                match reason {
                    Some(x) => x,
                    None => TaskTerminateReason::Cleanup,
                },
            ),
            signal: None,
        },
        WaitOutcome::KillFailed(m) => {
            &&& r.exit_code is None
            &&& r.signal is None
            &&& r.reason matches TaskStopReason::Error(TaskError::Handle(t))
            &&& t@ == "Failed to terminate task "@ + task_name + ": "@ + m@
        },
    }
}

/// A task killed on a termination request stops as terminated for the
/// reason that request carried, whatever that reason is, with no exit code
/// and no signal; only when the request channel closed without a reason is
/// the task counted as terminated for cleanup.
pub proof fn killed_reason_law(task_name: Seq<char>, reason: Option<TaskTerminateReason>, r: TaskResult)
    requires
        wait_result_spec(task_name, WaitOutcome::Killed(reason), r),
    ensures
        r.exit_code is None,
        r.signal is None,
        reason matches Some(x) ==> r.reason == TaskStopReason::Terminated(x),
        reason is None ==> r.reason == TaskStopReason::Terminated(TaskTerminateReason::Cleanup),
{
}

/// A process that exits ends the task as finished, with the exit code and
/// the signal the system reported, unchanged.
pub proof fn exited_result_law(task_name: Seq<char>, code: Option<i32>, signal: Option<i32>, r: TaskResult)
    requires
        wait_result_spec(task_name, WaitOutcome::Exited { code, signal }, r),
    ensures
        r.reason == TaskStopReason::Finished,
        r.exit_code == code,
        r.signal == signal,
{
}

/// Decides the task's result from how waiting on its process ended.
pub fn wait_result(task_name: &str, outcome: WaitOutcome) -> (r: TaskResult)
    ensures
        wait_result_spec(task_name@, outcome, r),
{
    match outcome {
        WaitOutcome::Exited { code, signal } => TaskResult {
            exit_code: code,
            reason: TaskStopReason::Finished,
            signal,
        },
        WaitOutcome::WaitFailed(m) => TaskResult {
            exit_code: None,
            reason: TaskStopReason::Error(TaskError::Handle(m)),
            signal: None,
        },
        WaitOutcome::Killed(reason) => TaskResult {
            exit_code: None,
            reason: TaskStopReason::Terminated(
                match reason {
                    Some(x) => x,
                    None => TaskTerminateReason::Cleanup,
                },
            ),
            signal: None,
        },
        WaitOutcome::KillFailed(m) => {
            let mut t = crate::text::cat3("Failed to terminate task ", task_name, ": ");
            t.append(m.as_str());
            TaskResult {
                exit_code: None,
                reason: TaskStopReason::Error(TaskError::Handle(t)),
                signal: None,
            }
        },
    }
}


} // verus!
