//! Conversions of task events and stop reasons.
use vstd::prelude::*;
use crate::flatbuffers::conversion::config::{stream_source_fb, stream_source_of_fb};
use crate::flatbuffers::conversion::error::{error_of_record, error_record};
use crate::flatbuffers::conversion::state::{action_fb, action_of_fb, terminated_code};
use crate::flatbuffers::conversion::{
    ConversionError, FromFlatbuffers, ToFlatbuffers, ToFlatbuffersUnion,
};
use crate::flatbuffers::schema;
use crate::flatbuffers::schema::UnionValue;
use crate::tasks::config::StreamSource;
use crate::tasks::error::TaskError;
use crate::tasks::event::{TaskEvent, TaskEventStopReason, TaskStopReason, TaskTerminateReason};

verus! {

/// The record of a timestamp in nanoseconds since the Unix epoch.
pub open spec fn time_record(t: u64) -> schema::SystemTime {
    schema::SystemTime { nanos_since_epoch: t }
}

/// The exit code field of a record: `i32::MIN` stands for no exit code.
pub open spec fn exit_code_fb(c: Option<i32>) -> i32 {
    match c {
        Some(v) => v,
        None => i32::MIN,
    }
}

/// The exit code read from a record field.
pub open spec fn exit_code_of_fb(v: i32) -> Option<i32> {
    if v == i32::MIN {
        None
    } else {
        Some(v)
    }
}

/// The signal field of a record: 0 stands for no signal.
pub open spec fn signal_fb(s: Option<i32>) -> i32 {
    match s {
        Some(v) => v,
        None => 0,
    }
}

/// The signal read from a record field.
pub open spec fn signal_of_fb(v: i32) -> Option<i32> {
    if v == 0 {
        None
    } else {
        Some(v)
    }
}

/// Union code of a stop reason.
pub open spec fn stop_reason_fb(r: TaskStopReason) -> u8 {
    match r {
        TaskStopReason::Finished => 1,
        TaskStopReason::Terminated(t) => terminated_code(t),
        TaskStopReason::Error(_) => 7,
    }
}

/// `(code, table)` is how a stop reason is written: its union code with the
/// empty table, or for an error an `ErrorStopReason` holding the error's
/// display text.
pub open spec fn stop_reason_written(r: TaskStopReason, code: u8, table: UnionValue) -> bool {
    &&& code == stop_reason_fb(r)
    &&& match r {
        TaskStopReason::Error(e) => {
            &&& table matches UnionValue::ErrorStopReason(t)
            &&& t.message matches Some(m)
            &&& m@ == e.text()
        },
        _ => table == UnionValue::DummyTable,
    }
}

/// The stop reason read from a union code and its table. The table is read
/// only for an error, whose message comes back as an `IO` error; a table that
/// is absent or of another kind counts as a missing `reason`.
pub open spec fn stop_reason_of_record(code: u8, table: Option<Box<UnionValue>>) -> Result<
    TaskStopReason,
    ConversionError,
> {
    if code == 1 {
        Ok(TaskStopReason::Finished)
    } else if code == 2 {
        Ok(TaskStopReason::Terminated(TaskTerminateReason::Timeout))
    } else if code == 3 {
        Ok(TaskStopReason::Terminated(TaskTerminateReason::Cleanup))
    } else if code == 4 {
        Ok(TaskStopReason::Terminated(TaskTerminateReason::DependenciesFinished))
    } else if code == 5 {
        Ok(TaskStopReason::Terminated(TaskTerminateReason::UserRequested))
    } else if code == 6 {
        Ok(TaskStopReason::Terminated(TaskTerminateReason::InternalError))
    } else if code == 7 {
        match table {
            Some(b) => match *b {
                UnionValue::ErrorStopReason(t) => match t.message {
                    Some(m) => Ok(TaskStopReason::Error(TaskError::IO(m))),
                    None => Err(ConversionError::MissingRequiredField("message")),
                },
                _ => Err(ConversionError::MissingRequiredField("reason")),
            },
            None => Err(ConversionError::MissingRequiredField("reason")),
        }
    } else {
        Err(ConversionError::InvalidTaskEventStopReasonType(code as i8))
    }
}

/// `(code, table)` is how an event is written: its union code and the table
/// of its data. Timestamps become `SystemTime` tables, and absent exit codes
/// and signals become their sentinels.
pub open spec fn event_written(ev: TaskEvent, code: u8, table: UnionValue) -> bool {
    match ev {
        TaskEvent::Started { process_id, created_at, running_at } => {
            &&& code == 1
            &&& table == UnionValue::StartedEvent(
                schema::StartedEvent {
                    process_id,
                    created_at: Some(time_record(created_at)),
                    running_at: Some(time_record(running_at)),
                },
            )
        },
        TaskEvent::Output { line, src } => {
            &&& code == 2
            &&& table == UnionValue::OutputEvent(
                schema::OutputEvent { line: Some(line), src: schema::StreamSource(stream_source_fb(src)) },
            )
        },
        TaskEvent::Ready => code == 3 && table == UnionValue::ReadyEvent,
        TaskEvent::Stopped { exit_code, reason, finished_at, signal } => {
            &&& code == 4
            &&& table matches UnionValue::StoppedEvent(s)
            &&& s.exit_code == exit_code_fb(exit_code)
            &&& s.finished_at == Some(time_record(finished_at))
            &&& s.signal == signal_fb(signal)
            &&& s.reason matches Some(b)
            &&& stop_reason_written(reason, s.reason_type.0, *b)
        },
        TaskEvent::Error { error } => {
            &&& code == 5
            &&& table == UnionValue::ErrorEvent(schema::ErrorEvent { error: Some(error_record(error)) })
        },
        TaskEvent::ProcessControl { action } => {
            &&& code == 6
            &&& table == UnionValue::ProcessControlEvent(
                schema::ProcessControlEvent { action: schema::ProcessControlAction(action_fb(action)) },
            )
        },
    }
}

/// The event read from the table of a known event code (other than Ready);
/// a table of another kind counts as a missing `event`.
pub open spec fn event_of_table(code: u8, t: UnionValue) -> Result<TaskEvent, ConversionError> {
    if code == 1 {
        match t {
            UnionValue::StartedEvent(s) => match s.created_at {
                None => Err(ConversionError::MissingRequiredField("created_at")),
                Some(c) => match s.running_at {
                    None => Err(ConversionError::MissingRequiredField("running_at")),
                    Some(r) => Ok(
                        TaskEvent::Started {
                            process_id: s.process_id,
                            created_at: c.nanos_since_epoch,
                            running_at: r.nanos_since_epoch,
                        },
                    ),
                },
            },
            _ => Err(ConversionError::MissingRequiredField("event")),
        }
    } else if code == 2 {
        match t {
            UnionValue::OutputEvent(o) => match o.line {
                None => Err(ConversionError::MissingRequiredField("line")),
                Some(l) => match stream_source_of_fb(o.src.0) {
                    Ok(src) => Ok(TaskEvent::Output { line: l, src }),
                    Err(e) => Err(e),
                },
            },
            _ => Err(ConversionError::MissingRequiredField("event")),
        }
    } else if code == 4 {
        match t {
            UnionValue::StoppedEvent(s) => match stop_reason_of_record(s.reason_type.0, s.reason) {
                Err(e) => Err(e),
                Ok(reason) => match s.finished_at {
                    None => Err(ConversionError::MissingRequiredField("finished_at")),
                    Some(f) => Ok(
                        TaskEvent::Stopped {
                            exit_code: exit_code_of_fb(s.exit_code),
                            reason,
                            finished_at: f.nanos_since_epoch,
                            signal: signal_of_fb(s.signal),
                        },
                    ),
                },
            },
            _ => Err(ConversionError::MissingRequiredField("event")),
        }
    } else if code == 5 {
        match t {
            UnionValue::ErrorEvent(e) => match e.error {
                None => Err(ConversionError::MissingRequiredField("error")),
                Some(er) => match error_of_record(er) {
                    Ok(error) => Ok(TaskEvent::Error { error }),
                    Err(x) => Err(x),
                },
            },
            _ => Err(ConversionError::MissingRequiredField("event")),
        }
    } else {
        match t {
            UnionValue::ProcessControlEvent(p) => match action_of_fb(p.action.0) {
                Ok(action) => Ok(TaskEvent::ProcessControl { action }),
                Err(x) => Err(x),
            },
            _ => Err(ConversionError::MissingRequiredField("event")),
        }
    }
}

/// The event read from a record: Ready needs no table, the other known codes
/// need theirs, and unknown codes are refused.
pub open spec fn event_of_record(f: schema::TaskEvent) -> Result<TaskEvent, ConversionError> {
    let code = f.event_type.0;
    if code == 3 {
        Ok(TaskEvent::Ready)
    } else if 1 <= code <= 6 {
        match f.event {
            Some(t) => event_of_table(code, t),
            None => Err(ConversionError::MissingRequiredField("event")),
        }
    } else {
        Err(ConversionError::InvalidTaskEventType(code as i8))
    }
}

impl FromFlatbuffers<(schema::TaskEventStopReason, Option<Box<UnionValue>>)> for TaskStopReason {
    /// Reads a stop reason from its union code and table.
    fn from_flatbuffers(input: (schema::TaskEventStopReason, Option<Box<UnionValue>>)) -> (r: Result<
        TaskStopReason,
        ConversionError,
    >)
        ensures
            r == stop_reason_of_record(input.0.0, input.1),
    {
        let (code, table) = input;
        match code.0 {
            1 => Ok(TaskStopReason::Finished),
            2 => Ok(TaskStopReason::Terminated(TaskTerminateReason::Timeout)),
            3 => Ok(TaskStopReason::Terminated(TaskTerminateReason::Cleanup)),
            4 => Ok(TaskStopReason::Terminated(TaskTerminateReason::DependenciesFinished)),
            5 => Ok(TaskStopReason::Terminated(TaskTerminateReason::UserRequested)),
            6 => Ok(TaskStopReason::Terminated(TaskTerminateReason::InternalError)),
            7 => match table {
                Some(b) => match *b {
                    UnionValue::ErrorStopReason(t) => match t.message {
                        Some(m) => Ok(TaskStopReason::Error(TaskError::IO(m))),
                        None => Err(ConversionError::MissingRequiredField("message")),
                    },
                    _ => Err(ConversionError::MissingRequiredField("reason")),
                },
                None => Err(ConversionError::MissingRequiredField("reason")),
            },
            _ => Err(ConversionError::InvalidTaskEventStopReasonType(code.0 as i8)),
        }
    }
}

impl ToFlatbuffersUnion<schema::TaskEventStopReason> for TaskStopReason {
    /// The union member of this stop reason.
    fn to_flatbuffers_union(&self) -> (r: (schema::TaskEventStopReason, UnionValue))
        ensures
            stop_reason_written(*self, r.0.0, r.1),
    {
        match self {
            TaskStopReason::Finished => (schema::TaskEventStopReason::finished(), UnionValue::DummyTable),
            TaskStopReason::Terminated(t) => t.to_flatbuffers_union(),
            TaskStopReason::Error(e) => (
                schema::TaskEventStopReason::error(),
                UnionValue::ErrorStopReason(schema::ErrorStopReason { message: Some(e.to_string()) }),
            ),
        }
    }
}

impl TaskEventStopReason {
    /// The union member of this stop reason.
    pub fn to_flatbuffer(&self) -> (r: (schema::TaskEventStopReason, UnionValue))
        ensures
            stop_reason_written(*self, r.0.0, r.1),
    {
        self.to_flatbuffers_union()
    }
}

/// The table of an event read from a known, non-Ready event code.
fn event_from_table(code: u8, t: UnionValue) -> (r: Result<TaskEvent, ConversionError>)
    requires
        1 <= code <= 6,
        code != 3,
    ensures
        r == event_of_table(code, t),
{
    if code == 1 {
        match t {
            UnionValue::StartedEvent(s) => {
                let created_at = match s.created_at {
                    Some(c) => c.nanos_since_epoch,
                    None => {
                        return Err(ConversionError::MissingRequiredField("created_at"));
                    },
                };
                let running_at = match s.running_at {
                    Some(c) => c.nanos_since_epoch,
                    None => {
                        return Err(ConversionError::MissingRequiredField("running_at"));
                    },
                };
                Ok(TaskEvent::Started { process_id: s.process_id, created_at, running_at })
            },
            _ => Err(ConversionError::MissingRequiredField("event")),
        }
    } else if code == 2 {
        match t {
            UnionValue::OutputEvent(o) => {
                let line = match o.line {
                    Some(l) => l,
                    None => {
                        return Err(ConversionError::MissingRequiredField("line"));
                    },
                };
                let src = StreamSource::try_from(o.src)?;
                Ok(TaskEvent::Output { line, src })
            },
            _ => Err(ConversionError::MissingRequiredField("event")),
        }
    } else if code == 4 {
        match t {
            UnionValue::StoppedEvent(s) => {
                let exit_code = if s.exit_code == i32::MIN {
                    None
                } else {
                    Some(s.exit_code)
                };
                let reason = TaskStopReason::from_flatbuffers((s.reason_type, s.reason))?;
                let finished_at = match s.finished_at {
                    Some(f) => f.nanos_since_epoch,
                    None => {
                        return Err(ConversionError::MissingRequiredField("finished_at"));
                    },
                };
                let signal = if s.signal == 0 {
                    None
                } else {
                    Some(s.signal)
                };
                Ok(TaskEvent::Stopped { exit_code, reason, finished_at, signal })
            },
            _ => Err(ConversionError::MissingRequiredField("event")),
        }
    } else if code == 5 {
        match t {
            UnionValue::ErrorEvent(e) => {
                let fb_error = match e.error {
                    Some(er) => er,
                    None => {
                        return Err(ConversionError::MissingRequiredField("error"));
                    },
                };
                let error = TaskError::from_flatbuffers(fb_error)?;
                Ok(TaskEvent::Error { error })
            },
            _ => Err(ConversionError::MissingRequiredField("event")),
        }
    } else {
        match t {
            UnionValue::ProcessControlEvent(p) => {
                let action = crate::tasks::process::control::ProcessControlAction::try_from(
                    p.action,
                )?;
                Ok(TaskEvent::ProcessControl { action })
            },
            _ => Err(ConversionError::MissingRequiredField("event")),
        }
    }
}

impl FromFlatbuffers<schema::TaskEvent> for TaskEvent {
    /// Reads an event record.
    fn from_flatbuffers(fb_event: schema::TaskEvent) -> (r: Result<TaskEvent, ConversionError>)
        ensures
            r == event_of_record(fb_event),
    {
        let code = fb_event.event_type.0;
        if code == 3 {
            return Ok(TaskEvent::Ready);
        }
        if code < 1 || code > 6 {
            return Err(ConversionError::InvalidTaskEventType(code as i8));
        }
        match fb_event.event {
            Some(t) => event_from_table(code, t),
            None => Err(ConversionError::MissingRequiredField("event")),
        }
    }
}

impl ToFlatbuffersUnion<schema::TaskEventUnion> for TaskEvent {
    /// The union member of this event.
    fn to_flatbuffers_union(&self) -> (r: (schema::TaskEventUnion, UnionValue))
        ensures
            event_written(*self, r.0.0, r.1),
    {
        match self {
            TaskEvent::Started { process_id, created_at, running_at } => (
                schema::TaskEventUnion::started(),
                UnionValue::StartedEvent(
                    schema::StartedEvent {
                        process_id: *process_id,
                        created_at: Some(schema::SystemTime { nanos_since_epoch: *created_at }),
                        running_at: Some(schema::SystemTime { nanos_since_epoch: *running_at }),
                    },
                ),
            ),
            TaskEvent::Output { line, src } => (
                schema::TaskEventUnion::output(),
                UnionValue::OutputEvent(
                    schema::OutputEvent { line: Some(line.clone()), src: schema::StreamSource::from(*src) },
                ),
            ),
            TaskEvent::Ready => (schema::TaskEventUnion::ready(), UnionValue::ReadyEvent),
            TaskEvent::Stopped { exit_code, reason, finished_at, signal } => {
                let (reason_type, reason_table) = reason.to_flatbuffers_union();
                let stopped = schema::StoppedEvent {
                    exit_code: match exit_code {
                        Some(c) => *c,
                        None => i32::MIN,
                    },
                    reason_type,
                    reason: Some(Box::new(reason_table)),
                    finished_at: Some(schema::SystemTime { nanos_since_epoch: *finished_at }),
                    signal: match signal {
                        Some(s) => *s,
                        None => 0,
                    },
                };
                (schema::TaskEventUnion::stopped(), UnionValue::StoppedEvent(stopped))
            },
            TaskEvent::Error { error } => (
                schema::TaskEventUnion::error(),
                UnionValue::ErrorEvent(schema::ErrorEvent { error: Some(error.to_flatbuffers()) }),
            ),
            TaskEvent::ProcessControl { action } => (
                schema::TaskEventUnion::process_control(),
                UnionValue::ProcessControlEvent(
                    schema::ProcessControlEvent { action: schema::ProcessControlAction::from(*action) },
                ),
            ),
        }
    }
}

impl ToFlatbuffers for TaskEvent {
    type Output = schema::TaskEvent;

    /// The record of this event: its union code and table.
    fn to_flatbuffers(&self) -> (r: schema::TaskEvent)
        ensures
            r.event matches Some(t) && event_written(*self, r.event_type.0, t),
    {
        let (event_type, event) = self.to_flatbuffers_union();
        schema::TaskEvent { event_type, event: Some(event) }
    }
}

impl TaskEvent {
    /// The union member of this event.
    pub fn to_flatbuffer(&self) -> (r: (schema::TaskEventUnion, UnionValue))
        ensures
            event_written(*self, r.0.0, r.1),
    {
        self.to_flatbuffers_union()
    }
}

/// Each event is written under the union code of its own kind (Started 1,
/// Output 2, Ready 3, Stopped 4, Error 5, ProcessControl 6), and a stop
/// reason under its own code (Finished 1, Terminated 2 to 6 by reason,
/// Error 7).
pub proof fn event_codes_law(ev: TaskEvent, code: u8, table: UnionValue, r: TaskStopReason)
    requires
        event_written(ev, code, table),
    ensures
        ev is Started ==> code == 1,
        ev is Output ==> code == 2,
        ev is Ready ==> code == 3,
        ev is Stopped ==> code == 4,
        ev is Error ==> code == 5,
        ev is ProcessControl ==> code == 6,
        r is Finished ==> stop_reason_fb(r) == 1,
        r is Terminated ==> 2 <= stop_reason_fb(r) <= 6,
        r is Error ==> stop_reason_fb(r) == 7,
{
}

/// The record of a Started event carries the process id and each timestamp
/// in the field of its own name: `created_at` in `created_at` and
/// `running_at` in `running_at`, as nanoseconds since the epoch.
pub proof fn started_record_law(process_id: u32, created_at: u64, running_at: u64, code: u8, table: UnionValue)
    requires
        event_written(TaskEvent::Started { process_id, created_at, running_at }, code, table),
    ensures
        code == 1,
        table matches UnionValue::StartedEvent(s) && s.process_id == process_id && s.created_at
            == Some(schema::SystemTime { nanos_since_epoch: created_at }) && s.running_at == Some(
            schema::SystemTime { nanos_since_epoch: running_at },
        ),
{
}

/// The record of a Stopped event carries its finishing time, as nanoseconds
/// since the epoch, in `finished_at`, and its exit code and signal as given
/// (or their sentinels when absent: `i32::MIN` and 0).
pub proof fn stopped_record_law(
    exit_code: Option<i32>,
    reason: TaskStopReason,
    finished_at: u64,
    signal: Option<i32>,
    code: u8,
    table: UnionValue,
)
    requires
        event_written(TaskEvent::Stopped { exit_code, reason, finished_at, signal }, code, table),
    ensures
        code == 4,
        table matches UnionValue::StoppedEvent(s) && s.finished_at == Some(
            schema::SystemTime { nanos_since_epoch: finished_at },
        ) && s.exit_code == (match exit_code {
            Some(c) => c,
            None => i32::MIN,
        }) && s.signal == (match signal {
            Some(x) => x,
            None => 0i32,
        }),
{
}

/// What reading back a written event gives: the event itself, except that an
/// error stop reason comes back as an `IO` error carrying the display text.
pub open spec fn read_back(ev: TaskEvent, back: TaskEvent) -> bool {
    match ev {
        TaskEvent::Stopped { exit_code, reason: TaskStopReason::Error(e), finished_at, signal } => {
            &&& back matches TaskEvent::Stopped { exit_code: x, reason: TaskStopReason::Error(TaskError::IO(m)), finished_at: f, signal: s }
            &&& x == exit_code
            &&& f == finished_at
            &&& s == signal
            &&& m@ == e.text()
        },
        _ => back == ev,
    }
}

/// Reading back the record of an event gives the event (an error stop reason
/// as its display text), provided that the exit code and the signal are not
/// the sentinels that stand for their absence.
pub proof fn event_record_roundtrip(ev: TaskEvent, code: u8, table: UnionValue)
    requires
        event_written(ev, code, table),
        ev matches TaskEvent::Stopped { exit_code, signal, .. } ==> exit_code != Some(i32::MIN)
            && signal != Some(0i32),
    ensures
        event_of_record(schema::TaskEvent { event_type: schema::TaskEventUnion(code), event: Some(table) })
            matches Ok(back) && read_back(ev, back),
{
    match ev {
        TaskEvent::Error { error } => {
            crate::flatbuffers::conversion::error::error_record_roundtrip(error);
        },
        TaskEvent::ProcessControl { action } => {
            crate::flatbuffers::conversion::state::action_fb_roundtrip(action);
        },
        _ => {},
    }
}

} // verus!
