//! Conversions of states, control actions and terminate reasons.
use vstd::prelude::*;
use vstd::std_specs::convert::{FromSpecImpl, TryFromSpecImpl};
use crate::flatbuffers::conversion::{ConversionError, ToFlatbuffersUnion};
use crate::flatbuffers::schema;
use crate::flatbuffers::schema::UnionValue;
use crate::tasks::event::TaskTerminateReason;
use crate::tasks::process::control::ProcessControlAction;
use crate::tasks::state::{ProcessState, TaskState};

verus! {

/// Schema code of a task state.
pub open spec fn task_state_fb(s: TaskState) -> i8 {
    match s {
        TaskState::Pending => 0,
        TaskState::Initiating => 1,
        TaskState::Running => 2,
        TaskState::Ready => 3,
        TaskState::Finished => 4,
        TaskState::Invalid => 5,
    }
}

/// Task state of a schema code; `Invalid` and unknown codes are refused.
pub open spec fn task_state_of_fb(c: i8) -> Result<TaskState, ConversionError> {
    if c == 0 {
        Ok(TaskState::Pending)
    } else if c == 1 {
        Ok(TaskState::Initiating)
    } else if c == 2 {
        Ok(TaskState::Running)
    } else if c == 3 {
        Ok(TaskState::Ready)
    } else if c == 4 {
        Ok(TaskState::Finished)
    } else {
        Err(ConversionError::InvalidTaskState(c))
    }
}

impl From<TaskState> for schema::TaskState {
    fn from(state: TaskState) -> (r: schema::TaskState)
        ensures
            r.0 == task_state_fb(state),
    {
        match state {
            TaskState::Pending => schema::TaskState(0),
            TaskState::Initiating => schema::TaskState(1),
            TaskState::Running => schema::TaskState(2),
            TaskState::Ready => schema::TaskState(3),
            TaskState::Finished => schema::TaskState(4),
            TaskState::Invalid => schema::TaskState(5),
        }
    }
}

impl FromSpecImpl<TaskState> for schema::TaskState {
    open spec fn obeys_from_spec() -> bool {
        true
    }

    open spec fn from_spec(v: TaskState) -> schema::TaskState {
        schema::TaskState(task_state_fb(v))
    }
}

impl TryFrom<schema::TaskState> for TaskState {
    type Error = ConversionError;

    fn try_from(fb_state: schema::TaskState) -> (r: Result<TaskState, ConversionError>)
        ensures
            r == task_state_of_fb(fb_state.0),
    {
        match fb_state.0 {
            0 => Ok(TaskState::Pending),
            1 => Ok(TaskState::Initiating),
            2 => Ok(TaskState::Running),
            3 => Ok(TaskState::Ready),
            4 => Ok(TaskState::Finished),
            _ => Err(ConversionError::InvalidTaskState(fb_state.0)),
        }
    }
}

impl TryFromSpecImpl<schema::TaskState> for TaskState {
    open spec fn obeys_try_from_spec() -> bool {
        true
    }

    open spec fn try_from_spec(v: schema::TaskState) -> Result<TaskState, ConversionError> {
        task_state_of_fb(v.0)
    }
}

/// Schema code of a process state.
pub open spec fn process_state_fb(s: ProcessState) -> i8 {
    match s {
        ProcessState::Stopped => 0,
        ProcessState::Running => 1,
        ProcessState::Pause => 2,
        ProcessState::Invalid => 3,
    }
}

/// Process state of a schema code; `Invalid` and unknown codes are refused.
pub open spec fn process_state_of_fb(c: i8) -> Result<ProcessState, ConversionError> {
    if c == 0 {
        Ok(ProcessState::Stopped)
    } else if c == 1 {
        Ok(ProcessState::Running)
    } else if c == 2 {
        Ok(ProcessState::Pause)
    } else {
        Err(ConversionError::InvalidProcessState(c))
    }
}

impl From<ProcessState> for schema::ProcessState {
    fn from(state: ProcessState) -> (r: schema::ProcessState)
        ensures
            r.0 == process_state_fb(state),
    {
        match state {
            ProcessState::Stopped => schema::ProcessState(0),
            ProcessState::Running => schema::ProcessState(1),
            ProcessState::Pause => schema::ProcessState(2),
            ProcessState::Invalid => schema::ProcessState(3),
        }
    }
}

impl FromSpecImpl<ProcessState> for schema::ProcessState {
    open spec fn obeys_from_spec() -> bool {
        true
    }

    open spec fn from_spec(v: ProcessState) -> schema::ProcessState {
        schema::ProcessState(process_state_fb(v))
    }
}

impl TryFrom<schema::ProcessState> for ProcessState {
    type Error = ConversionError;

    fn try_from(fb_state: schema::ProcessState) -> (r: Result<ProcessState, ConversionError>)
        ensures
            r == process_state_of_fb(fb_state.0),
    {
        match fb_state.0 {
            0 => Ok(ProcessState::Stopped),
            1 => Ok(ProcessState::Running),
            2 => Ok(ProcessState::Pause),
            _ => Err(ConversionError::InvalidProcessState(fb_state.0)),
        }
    }
}

impl TryFromSpecImpl<schema::ProcessState> for ProcessState {
    open spec fn obeys_try_from_spec() -> bool {
        true
    }

    open spec fn try_from_spec(v: schema::ProcessState) -> Result<ProcessState, ConversionError> {
        process_state_of_fb(v.0)
    }
}

/// Schema code of a process control action.
pub open spec fn action_fb(a: ProcessControlAction) -> i8 {
    match a {
        ProcessControlAction::Stop => 0,
        ProcessControlAction::Pause => 1,
        ProcessControlAction::Resume => 2,
    }
}

/// Process control action of a schema code; unknown codes are refused.
pub open spec fn action_of_fb(c: i8) -> Result<ProcessControlAction, ConversionError> {
    if c == 0 {
        Ok(ProcessControlAction::Stop)
    } else if c == 1 {
        Ok(ProcessControlAction::Pause)
    } else if c == 2 {
        Ok(ProcessControlAction::Resume)
    } else {
        Err(ConversionError::InvalidProcessControlAction(c))
    }
}

impl From<ProcessControlAction> for schema::ProcessControlAction {
    fn from(action: ProcessControlAction) -> (r: schema::ProcessControlAction)
        ensures
            r.0 == action_fb(action),
    {
        match action {
            ProcessControlAction::Stop => schema::ProcessControlAction(0),
            ProcessControlAction::Pause => schema::ProcessControlAction(1),
            ProcessControlAction::Resume => schema::ProcessControlAction(2),
        }
    }
}

impl FromSpecImpl<ProcessControlAction> for schema::ProcessControlAction {
    open spec fn obeys_from_spec() -> bool {
        true
    }

    open spec fn from_spec(v: ProcessControlAction) -> schema::ProcessControlAction {
        schema::ProcessControlAction(action_fb(v))
    }
}

impl TryFrom<schema::ProcessControlAction> for ProcessControlAction {
    type Error = ConversionError;

    fn try_from(fb_action: schema::ProcessControlAction) -> (r: Result<
        ProcessControlAction,
        ConversionError,
    >)
        ensures
            r == action_of_fb(fb_action.0),
    {
        match fb_action.0 {
            0 => Ok(ProcessControlAction::Stop),
            1 => Ok(ProcessControlAction::Pause),
            2 => Ok(ProcessControlAction::Resume),
            _ => Err(ConversionError::InvalidProcessControlAction(fb_action.0)),
        }
    }
}

impl TryFromSpecImpl<schema::ProcessControlAction> for ProcessControlAction {
    open spec fn obeys_try_from_spec() -> bool {
        true
    }

    open spec fn try_from_spec(v: schema::ProcessControlAction) -> Result<
        ProcessControlAction,
        ConversionError,
    > {
        action_of_fb(v.0)
    }
}

/// Schema code of a terminate reason.
pub open spec fn terminate_reason_fb(r: TaskTerminateReason) -> i8 {
    match r {
        TaskTerminateReason::Timeout => 0,
        TaskTerminateReason::Cleanup => 1,
        TaskTerminateReason::DependenciesFinished => 2,
        TaskTerminateReason::UserRequested => 3,
        TaskTerminateReason::InternalError => 4,
    }
}

/// Terminate reason of a schema code. Only Timeout, Cleanup and
/// DependenciesFinished are read back; every other code is refused.
pub open spec fn terminate_reason_of_fb(c: i8) -> Result<TaskTerminateReason, ConversionError> {
    if c == 0 {
        Ok(TaskTerminateReason::Timeout)
    } else if c == 1 {
        Ok(TaskTerminateReason::Cleanup)
    } else if c == 2 {
        Ok(TaskTerminateReason::DependenciesFinished)
    } else {
        Err(ConversionError::InvalidTaskTerminateReasonType(c))
    }
}

impl From<TaskTerminateReason> for schema::TaskTerminateReason {
    fn from(reason: TaskTerminateReason) -> (r: schema::TaskTerminateReason)
        ensures
            r.0 == terminate_reason_fb(reason),
    {
        match reason {
            TaskTerminateReason::Timeout => schema::TaskTerminateReason(0),
            TaskTerminateReason::Cleanup => schema::TaskTerminateReason(1),
            TaskTerminateReason::DependenciesFinished => schema::TaskTerminateReason(2),
            TaskTerminateReason::UserRequested => schema::TaskTerminateReason(3),
            TaskTerminateReason::InternalError => schema::TaskTerminateReason(4),
        }
    }
}

impl FromSpecImpl<TaskTerminateReason> for schema::TaskTerminateReason {
    open spec fn obeys_from_spec() -> bool {
        true
    }

    open spec fn from_spec(v: TaskTerminateReason) -> schema::TaskTerminateReason {
        schema::TaskTerminateReason(terminate_reason_fb(v))
    }
}

impl TryFrom<schema::TaskTerminateReason> for TaskTerminateReason {
    type Error = ConversionError;

    fn try_from(fb_reason: schema::TaskTerminateReason) -> (r: Result<
        TaskTerminateReason,
        ConversionError,
    >)
        ensures
            r == terminate_reason_of_fb(fb_reason.0),
    {
        match fb_reason.0 {
            0 => Ok(TaskTerminateReason::Timeout),
            1 => Ok(TaskTerminateReason::Cleanup),
            2 => Ok(TaskTerminateReason::DependenciesFinished),
            _ => Err(ConversionError::InvalidTaskTerminateReasonType(fb_reason.0)),
        }
    }
}

impl TryFromSpecImpl<schema::TaskTerminateReason> for TaskTerminateReason {
    open spec fn obeys_try_from_spec() -> bool {
        true
    }

    open spec fn try_from_spec(v: schema::TaskTerminateReason) -> Result<
        TaskTerminateReason,
        ConversionError,
    > {
        terminate_reason_of_fb(v.0)
    }
}

/// Stop-reason union code of a termination for the given reason.
pub open spec fn terminated_code(r: TaskTerminateReason) -> u8 {
    match r {
        TaskTerminateReason::Timeout => 2,
        TaskTerminateReason::Cleanup => 3,
        TaskTerminateReason::DependenciesFinished => 4,
        TaskTerminateReason::UserRequested => 5,
        TaskTerminateReason::InternalError => 6,
    }
}

impl ToFlatbuffersUnion<schema::TaskEventStopReason> for TaskTerminateReason {
    /// The stop-reason union member of a termination for this reason: its
    /// `Terminated*` code, with the empty table.
    fn to_flatbuffers_union(&self) -> (r: (schema::TaskEventStopReason, UnionValue))
        ensures
            r.0.0 == terminated_code(*self),
            r.1 == UnionValue::DummyTable,
    {
        let code: u8 = match self {
            TaskTerminateReason::Timeout => 2,
            TaskTerminateReason::Cleanup => 3,
            TaskTerminateReason::DependenciesFinished => 4,
            TaskTerminateReason::UserRequested => 5,
            TaskTerminateReason::InternalError => 6,
        };
        (schema::TaskEventStopReason(code), UnionValue::DummyTable)
    }
}

/// Each state, action and terminate reason is written as the schema code of
/// its own name: task states Pending 0, Initiating 1, Running 2, Ready 3,
/// Finished 4, Invalid 5; process states Stopped 0, Running 1, Pause 2,
/// Invalid 3; actions Stop 0, Pause 1, Resume 2; terminate reasons Timeout 0,
/// Cleanup 1, DependenciesFinished 2, UserRequested 3, InternalError 4; and a
/// termination as the stop-reason code `Terminated` + its reason (Timeout 2
/// to InternalError 6).
pub proof fn schema_codes_law()
    ensures
        task_state_fb(TaskState::Pending) == 0,
        task_state_fb(TaskState::Initiating) == 1,
        task_state_fb(TaskState::Running) == 2,
        task_state_fb(TaskState::Ready) == 3,
        task_state_fb(TaskState::Finished) == 4,
        task_state_fb(TaskState::Invalid) == 5,
        process_state_fb(ProcessState::Stopped) == 0,
        process_state_fb(ProcessState::Running) == 1,
        process_state_fb(ProcessState::Pause) == 2,
        process_state_fb(ProcessState::Invalid) == 3,
        action_fb(ProcessControlAction::Stop) == 0,
        action_fb(ProcessControlAction::Pause) == 1,
        action_fb(ProcessControlAction::Resume) == 2,
        terminate_reason_fb(TaskTerminateReason::Timeout) == 0,
        terminate_reason_fb(TaskTerminateReason::Cleanup) == 1,
        terminate_reason_fb(TaskTerminateReason::DependenciesFinished) == 2,
        terminate_reason_fb(TaskTerminateReason::UserRequested) == 3,
        terminate_reason_fb(TaskTerminateReason::InternalError) == 4,
        terminated_code(TaskTerminateReason::Timeout) == 2,
        terminated_code(TaskTerminateReason::Cleanup) == 3,
        terminated_code(TaskTerminateReason::DependenciesFinished) == 4,
        terminated_code(TaskTerminateReason::UserRequested) == 5,
        terminated_code(TaskTerminateReason::InternalError) == 6,
{
}

/// Every task state but `Invalid` reads back as itself from its schema code.
pub proof fn task_state_fb_roundtrip(s: TaskState)
    requires
        s != TaskState::Invalid,
    ensures
        task_state_of_fb(task_state_fb(s)) == Ok::<TaskState, ConversionError>(s),
{
}

/// Every process state but `Invalid` reads back as itself from its schema code.
pub proof fn process_state_fb_roundtrip(s: ProcessState)
    requires
        s != ProcessState::Invalid,
    ensures
        process_state_of_fb(process_state_fb(s)) == Ok::<ProcessState, ConversionError>(s),
{
}

/// Every control action reads back as itself from its schema code.
pub proof fn action_fb_roundtrip(a: ProcessControlAction)
    ensures
        action_of_fb(action_fb(a)) == Ok::<ProcessControlAction, ConversionError>(a),
{
}

/// Timeout, Cleanup and DependenciesFinished read back as themselves from
/// their schema codes.
pub proof fn terminate_reason_fb_roundtrip(r: TaskTerminateReason)
    requires
        r == TaskTerminateReason::Timeout || r == TaskTerminateReason::Cleanup || r
            == TaskTerminateReason::DependenciesFinished,
    ensures
        terminate_reason_of_fb(terminate_reason_fb(r)) == Ok::<TaskTerminateReason, ConversionError>(r),
{
}

} // verus!
