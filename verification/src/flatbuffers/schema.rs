//! Flat wire records of the task schema: one record per schema table, and
//! schema enums as their raw codes, so that a record can hold any code read
//! from the wire, known or not.
use vstd::prelude::*;

verus! {

/// Schema enum `StreamSource` (Stdout = 0, Stderr = 1).
#[derive(Debug, Clone, Copy, PartialEq, Eq, Structural)]
pub struct StreamSource(pub i8);

impl StreamSource {
    /// The `Stdout` code.
    pub fn stdout() -> (r: Self)
        ensures
            r.0 == 0,
    {
        StreamSource(0)
    }

    /// The `Stderr` code.
    pub fn stderr() -> (r: Self)
        ensures
            r.0 == 1,
    {
        StreamSource(1)
    }
}

/// Schema enum `TaskState` (Pending = 0 .. Finished = 4, Invalid = 5).
#[derive(Debug, Clone, Copy, PartialEq, Eq, Structural)]
pub struct TaskState(pub i8);

impl TaskState {
    /// The `Pending` code.
    pub fn pending() -> (r: Self)
        ensures
            r.0 == 0,
    {
        TaskState(0)
    }

    /// The `Initiating` code.
    pub fn initiating() -> (r: Self)
        ensures
            r.0 == 1,
    {
        TaskState(1)
    }

    /// The `Running` code.
    pub fn running() -> (r: Self)
        ensures
            r.0 == 2,
    {
        TaskState(2)
    }

    /// The `Ready` code.
    pub fn ready() -> (r: Self)
        ensures
            r.0 == 3,
    {
        TaskState(3)
    }

    /// The `Finished` code.
    pub fn finished() -> (r: Self)
        ensures
            r.0 == 4,
    {
        TaskState(4)
    }

    /// The `Invalid` code.
    pub fn invalid() -> (r: Self)
        ensures
            r.0 == 5,
    {
        TaskState(5)
    }
}

/// Schema enum `ProcessState` (Stopped = 0, Running = 1, Pause = 2, Invalid = 3).
#[derive(Debug, Clone, Copy, PartialEq, Eq, Structural)]
pub struct ProcessState(pub i8);

impl ProcessState {
    /// The `Stopped` code.
    pub fn stopped() -> (r: Self)
        ensures
            r.0 == 0,
    {
        ProcessState(0)
    }

    /// The `Running` code.
    pub fn running() -> (r: Self)
        ensures
            r.0 == 1,
    {
        ProcessState(1)
    }

    /// The `Pause` code.
    pub fn pause() -> (r: Self)
        ensures
            r.0 == 2,
    {
        ProcessState(2)
    }

    /// The `Invalid` code.
    pub fn invalid() -> (r: Self)
        ensures
            r.0 == 3,
    {
        ProcessState(3)
    }
}

/// Schema enum `ProcessControlAction` (Stop = 0, Pause = 1, Resume = 2).
#[derive(Debug, Clone, Copy, PartialEq, Eq, Structural)]
pub struct ProcessControlAction(pub i8);

impl ProcessControlAction {
    /// The `Stop` code.
    pub fn stop() -> (r: Self)
        ensures
            r.0 == 0,
    {
        ProcessControlAction(0)
    }

    /// The `Pause` code.
    pub fn pause() -> (r: Self)
        ensures
            r.0 == 1,
    {
        ProcessControlAction(1)
    }

    /// The `Resume` code.
    pub fn resume() -> (r: Self)
        ensures
            r.0 == 2,
    {
        ProcessControlAction(2)
    }
}

/// Schema enum `TaskTerminateReason` (Timeout = 0, Cleanup = 1,
/// DependenciesFinished = 2, UserRequested = 3, InternalError = 4).
#[derive(Debug, Clone, Copy, PartialEq, Eq, Structural)]
pub struct TaskTerminateReason(pub i8);

impl TaskTerminateReason {
    /// The `Timeout` code.
    pub fn timeout() -> (r: Self)
        ensures
            r.0 == 0,
    {
        TaskTerminateReason(0)
    }

    /// The `Cleanup` code.
    pub fn cleanup() -> (r: Self)
        ensures
            r.0 == 1,
    {
        TaskTerminateReason(1)
    }

    /// The `DependenciesFinished` code.
    pub fn dependencies_finished() -> (r: Self)
        ensures
            r.0 == 2,
    {
        TaskTerminateReason(2)
    }

    /// The `UserRequested` code.
    pub fn user_requested() -> (r: Self)
        ensures
            r.0 == 3,
    {
        TaskTerminateReason(3)
    }

    /// The `InternalError` code.
    pub fn internal_error() -> (r: Self)
        ensures
            r.0 == 4,
    {
        TaskTerminateReason(4)
    }
}

/// Schema union type `TaskEventStopReason` (NONE = 0, Finished = 1,
/// TerminatedTimeout = 2, TerminatedCleanup = 3,
/// TerminatedDependenciesFinished = 4, TerminatedUserRequested = 5,
/// TerminatedInternalError = 6, Error = 7).
#[derive(Debug, Clone, Copy, PartialEq, Eq, Structural)]
pub struct TaskEventStopReason(pub u8);

impl TaskEventStopReason {
    /// The `Finished` code.
    pub fn finished() -> (r: Self)
        ensures
            r.0 == 1,
    {
        TaskEventStopReason(1)
    }

    /// The `TerminatedTimeout` code.
    pub fn terminated_timeout() -> (r: Self)
        ensures
            r.0 == 2,
    {
        TaskEventStopReason(2)
    }

    /// The `TerminatedCleanup` code.
    pub fn terminated_cleanup() -> (r: Self)
        ensures
            r.0 == 3,
    {
        TaskEventStopReason(3)
    }

    /// The `TerminatedDependenciesFinished` code.
    pub fn terminated_dependencies_finished() -> (r: Self)
        ensures
            r.0 == 4,
    {
        TaskEventStopReason(4)
    }

    /// The `TerminatedUserRequested` code.
    pub fn terminated_user_requested() -> (r: Self)
        ensures
            r.0 == 5,
    {
        TaskEventStopReason(5)
    }

    /// The `TerminatedInternalError` code.
    pub fn terminated_internal_error() -> (r: Self)
        ensures
            r.0 == 6,
    {
        TaskEventStopReason(6)
    }

    /// The `Error` code.
    pub fn error() -> (r: Self)
        ensures
            r.0 == 7,
    {
        TaskEventStopReason(7)
    }
}

/// Schema union type `TaskEventUnion` (NONE = 0, Started = 1, Output = 2,
/// Ready = 3, Stopped = 4, Error = 5, ProcessControl = 6).
#[derive(Debug, Clone, Copy, PartialEq, Eq, Structural)]
pub struct TaskEventUnion(pub u8);

impl TaskEventUnion {
    /// The `Started` code.
    pub fn started() -> (r: Self)
        ensures
            r.0 == 1,
    {
        TaskEventUnion(1)
    }

    /// The `Output` code.
    pub fn output() -> (r: Self)
        ensures
            r.0 == 2,
    {
        TaskEventUnion(2)
    }

    /// The `Ready` code.
    pub fn ready() -> (r: Self)
        ensures
            r.0 == 3,
    {
        TaskEventUnion(3)
    }

    /// The `Stopped` code.
    pub fn stopped() -> (r: Self)
        ensures
            r.0 == 4,
    {
        TaskEventUnion(4)
    }

    /// The `Error` code.
    pub fn error() -> (r: Self)
        ensures
            r.0 == 5,
    {
        TaskEventUnion(5)
    }

    /// The `ProcessControl` code.
    pub fn process_control() -> (r: Self)
        ensures
            r.0 == 6,
    {
        TaskEventUnion(6)
    }
}

/// Schema enum `TaskErrorType` (IO = 0, Handle = 1, Channel = 2,
/// InvalidConfiguration = 3, Control = 4, Custom = 5).
#[derive(Debug, Clone, Copy, PartialEq, Eq, Structural)]
pub struct TaskErrorType(pub i8);

impl TaskErrorType {
    /// The `IO` code.
    pub fn io() -> (r: Self)
        ensures
            r.0 == 0,
    {
        TaskErrorType(0)
    }

    /// The `Handle` code.
    pub fn handle() -> (r: Self)
        ensures
            r.0 == 1,
    {
        TaskErrorType(1)
    }

    /// The `Channel` code.
    pub fn channel() -> (r: Self)
        ensures
            r.0 == 2,
    {
        TaskErrorType(2)
    }

    /// The `InvalidConfiguration` code.
    pub fn invalid_configuration() -> (r: Self)
        ensures
            r.0 == 3,
    {
        TaskErrorType(3)
    }

    /// The `Control` code.
    pub fn control() -> (r: Self)
        ensures
            r.0 == 4,
    {
        TaskErrorType(4)
    }

    /// The `Custom` code.
    pub fn custom() -> (r: Self)
        ensures
            r.0 == 5,
    {
        TaskErrorType(5)
    }
}

/// Table `EnvEntry`.
#[derive(Debug, Clone, PartialEq)]
pub struct EnvEntry {
    pub key: String,
    pub value: String,
}

/// Table `TaskConfig`. Scalars have their schema defaults: a zero timeout
/// stands for "no timeout" and `false` for unset flags.
#[derive(Debug, Clone, PartialEq)]
pub struct TaskConfig {
    pub command: String,
    pub args: Option<Vec<String>>,
    pub working_dir: Option<String>,
    pub env: Option<Vec<EnvEntry>>,
    pub timeout_ms: u64,
    pub enable_stdin: bool,
    pub ready_indicator: Option<String>,
    pub ready_indicator_source: StreamSource,
    pub use_process_group: bool,
}

/// Table `TaskError`.
#[derive(Debug, Clone, PartialEq)]
pub struct TaskError {
    pub kind: TaskErrorType,
    pub message: Option<String>,
}

/// Table `SystemTime`.
#[derive(Debug, Clone, Copy, PartialEq, Eq, Structural)]
pub struct SystemTime {
    pub nanos_since_epoch: u64,
}

/// Table `StartedEvent`.
#[derive(Debug, Clone, PartialEq)]
pub struct StartedEvent {
    pub process_id: u32,
    pub created_at: Option<SystemTime>,
    pub running_at: Option<SystemTime>,
}

/// Table `OutputEvent`.
#[derive(Debug, Clone, PartialEq)]
pub struct OutputEvent {
    pub line: Option<String>,
    pub src: StreamSource,
}

/// Table `StoppedEvent`. `exit_code` is `i32::MIN` when there is no exit code,
/// and `signal` is 0 when no signal ended the process.
#[derive(Debug, PartialEq)]
pub struct StoppedEvent {
    pub exit_code: i32,
    pub reason_type: TaskEventStopReason,
    pub reason: Option<Box<UnionValue>>,
    pub finished_at: Option<SystemTime>,
    pub signal: i32,
}

/// Table `ErrorEvent`.
#[derive(Debug, Clone, PartialEq)]
pub struct ErrorEvent {
    pub error: Option<TaskError>,
}

/// Table `ProcessControlEvent`.
#[derive(Debug, Clone, PartialEq)]
pub struct ProcessControlEvent {
    pub action: ProcessControlAction,
}

/// Table `ErrorStopReason`.
#[derive(Debug, Clone, PartialEq)]
pub struct ErrorStopReason {
    pub message: Option<String>,
}

/// The table a union value refers to; which table it is read as is given by
/// the union's type code.
#[derive(Debug, PartialEq)]
pub enum UnionValue {
    /// The empty table used by union members without data.
    DummyTable,
    StartedEvent(StartedEvent),
    OutputEvent(OutputEvent),
    ReadyEvent,
    StoppedEvent(StoppedEvent),
    ErrorEvent(ErrorEvent),
    ProcessControlEvent(ProcessControlEvent),
    ErrorStopReason(ErrorStopReason),
}

/// Table `TaskEvent`.
#[derive(Debug, PartialEq)]
pub struct TaskEvent {
    pub event_type: TaskEventUnion,
    pub event: Option<UnionValue>,
}

} // verus!
