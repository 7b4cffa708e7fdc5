//! What the steps of starting a task produce. The steps themselves are
//! methods of the spawner (`begin_start`, `spawn_failed`, `process_started`,
//! `arm_terminate`, `take_stdin`); the runner spawns the process and sends
//! the events they produce.
use vstd::prelude::*;
use crate::tasks::async_tokio::direct::command::CommandPlan;
use crate::tasks::error::TaskError;
use crate::tasks::event::TaskEvent;

verus! {

/// A start that could not go on: the event to emit and the error to return,
/// which is the one the event carries.
pub open spec fn failed_start(r: (TaskEvent, TaskError)) -> bool {
    r.0 == TaskEvent::Error { error: r.1 }
}

/// The validation outcome a first start step stands for.
pub open spec fn validation_outcome(r: Result<CommandPlan, (TaskEvent, TaskError)>) -> Result<(), TaskError> {
    match r {
        Ok(_) => Ok(()),
        Err((_, e)) => Err(e),
    }
}


} // verus!
