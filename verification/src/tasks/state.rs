//! Lifecycle states of tasks and processes.
use vstd::prelude::*;

verus! {

/// Execution state of a task throughout its lifecycle.
///
/// Pending -> Initiating -> Running -> [Ready] -> Finished; Initiating may
/// also go straight to Finished when the task cannot be started.
#[derive(Debug, Clone, Copy, PartialEq, Eq, Structural)]
pub enum TaskState {
    /// Created, not yet started.
    Pending,
    /// Configuration is being validated and the process prepared.
    Initiating,
    /// The process is running.
    Running,
    /// The process reported readiness through its ready indicator.
    Ready,
    /// Execution has completed; no further transitions occur.
    Finished,
    /// Not a state a task reaches; the decoding of an unknown code.
    Invalid,
}

/// The numeric code of a task state.
pub open spec fn task_state_code(s: TaskState) -> u8 {
    match s {
        TaskState::Pending => 0,
        TaskState::Initiating => 1,
        TaskState::Running => 2,
        TaskState::Ready => 3,
        TaskState::Finished => 4,
        TaskState::Invalid => 255,
    }
}

/// The task state of a numeric code; unknown codes give `Invalid`.
pub open spec fn task_state_of_code(v: u8) -> TaskState {
    if v == 0 {
        TaskState::Pending
    } else if v == 1 {
        TaskState::Initiating
    } else if v == 2 {
        TaskState::Running
    } else if v == 3 {
        TaskState::Ready
    } else if v == 4 {
        TaskState::Finished
    } else {
        TaskState::Invalid
    }
}

impl From<u8> for TaskState {
    fn from(value: u8) -> (r: TaskState)
        ensures
            r == task_state_of_code(value),
    {
        match value {
            0 => TaskState::Pending,
            1 => TaskState::Initiating,
            2 => TaskState::Running,
            3 => TaskState::Ready,
            4 => TaskState::Finished,
            _ => TaskState::Invalid,
        }
    }
}

impl vstd::std_specs::convert::FromSpecImpl<u8> for TaskState {
    open spec fn obeys_from_spec() -> bool {
        true
    }

    open spec fn from_spec(v: u8) -> TaskState {
        task_state_of_code(v)
    }
}

impl From<TaskState> for u8 {
    fn from(state: TaskState) -> (r: u8)
        ensures
            r == task_state_code(state),
    {
        match state {
            TaskState::Pending => 0,
            TaskState::Initiating => 1,
            TaskState::Running => 2,
            TaskState::Ready => 3,
            TaskState::Finished => 4,
            TaskState::Invalid => 255,
        }
    }
}

impl vstd::std_specs::convert::FromSpecImpl<TaskState> for u8 {
    open spec fn obeys_from_spec() -> bool {
        true
    }

    open spec fn from_spec(v: TaskState) -> u8 {
        task_state_code(v)
    }
}

/// The state of a spawned process.
#[derive(Debug, Clone, Copy, PartialEq, Eq, Structural)]
pub enum ProcessState {
    /// The process is not running.
    Stopped,
    /// The process is running.
    Running,
    /// The process is paused.
    Pause,
    /// Invalid state; should not occur (unknown codes decode as `Stopped`).
    Invalid,
}

/// The numeric code of a process state.
pub open spec fn process_state_code(s: ProcessState) -> u8 {
    match s {
        ProcessState::Stopped => 0,
        ProcessState::Running => 1,
        ProcessState::Pause => 2,
        ProcessState::Invalid => 255,
    }
}

/// The process state of a numeric code; unknown codes give `Stopped`.
pub open spec fn process_state_of_code(v: u8) -> ProcessState {
    if v == 1 {
        ProcessState::Running
    } else if v == 2 {
        ProcessState::Pause
    } else {
        ProcessState::Stopped
    }
}

impl From<u8> for ProcessState {
    fn from(value: u8) -> (r: ProcessState)
        ensures
            r == process_state_of_code(value),
    {
        match value {
            1 => ProcessState::Running,
            2 => ProcessState::Pause,
            _ => ProcessState::Stopped,
        }
    }
}

impl vstd::std_specs::convert::FromSpecImpl<u8> for ProcessState {
    open spec fn obeys_from_spec() -> bool {
        true
    }

    open spec fn from_spec(v: u8) -> ProcessState {
        process_state_of_code(v)
    }
}

impl From<ProcessState> for u8 {
    fn from(state: ProcessState) -> (r: u8)
        ensures
            r == process_state_code(state),
    {
        match state {
            ProcessState::Stopped => 0,
            ProcessState::Running => 1,
            ProcessState::Pause => 2,
            ProcessState::Invalid => 255,
        }
    }
}

impl vstd::std_specs::convert::FromSpecImpl<ProcessState> for u8 {
    open spec fn obeys_from_spec() -> bool {
        true
    }

    open spec fn from_spec(v: ProcessState) -> u8 {
        process_state_code(v)
    }
}

/// Decoding a state's code gives the state back.
pub proof fn task_state_code_roundtrip(s: TaskState)
    ensures
        task_state_of_code(task_state_code(s)) == s,
{
}

/// Decoding a process state's code gives the state back, for every state
/// but `Invalid` (whose code is unknown and decodes as `Stopped`).
pub proof fn process_state_code_roundtrip(s: ProcessState)
    requires
        s != ProcessState::Invalid,
    ensures
        process_state_of_code(process_state_code(s)) == s,
{
}

} // verus!
