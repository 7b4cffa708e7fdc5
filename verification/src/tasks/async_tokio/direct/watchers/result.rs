//! The result watcher: once the result is known and the other watchers are
//! done, the task's Stopped event is emitted and the task is Finished.
use vstd::prelude::*;
use crate::tasks::async_tokio::direct::watchers::wait::TaskResult;
use crate::tasks::error::TaskError;
use crate::tasks::event::{TaskEvent, TaskStopReason};

verus! {

/// The Stopped event of a task finished at `finished_at` (nanoseconds since
/// the Unix epoch). Without a result, because every sender of the result
/// was dropped, the task stopped with the channel error "All result senders
/// dropped unexpectedly".
pub fn stopped_event(result: Option<TaskResult>, finished_at: u64) -> (ev: TaskEvent)
    ensures
        match result {
            Some(r) => ev == TaskEvent::Stopped {
                exit_code: r.exit_code,
                reason: r.reason,
                finished_at,
                signal: r.signal,
            },
            None => {
                &&& ev matches TaskEvent::Stopped {
                    exit_code: None,
                    reason: TaskStopReason::Error(TaskError::Channel(m)),
                    finished_at: f,
                    signal: None,
                }
                &&& f == finished_at
                &&& m@ == "All result senders dropped unexpectedly"@
            },
        },
{
    match result {
        Some(r) => TaskEvent::Stopped {
            exit_code: r.exit_code,
            reason: r.reason,
            finished_at,
            signal: r.signal,
        },
        None => TaskEvent::Stopped {
            exit_code: None,
            reason: TaskStopReason::Error(
                TaskError::Channel("All result senders dropped unexpectedly".to_string()),
            ),
            finished_at,
            signal: None,
        },
    }
}


} // verus!
