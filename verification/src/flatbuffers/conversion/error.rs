//! Errors of converting schema records, and the conversions of task errors.
use vstd::prelude::*;
use crate::flatbuffers::conversion::{FromFlatbuffers, ToFlatbuffers};
use crate::flatbuffers::schema;
use crate::tasks::error::TaskError;
use crate::text::int_text;

verus! {

/// Errors of converting a schema record to a task type.
#[derive(Debug, Clone)]
pub enum ConversionError {
    InvalidStreamSource(i8),
    InvalidTaskShell(i8),
    InvalidTaskState(i8),
    InvalidProcessState(i8),
    InvalidProcessControlAction(i8),
    InvalidTaskTerminateReasonType(i8),
    InvalidTaskEventStopReasonType(i8),
    InvalidTaskEventType(i8),
    InvalidTaskErrorType(i8),
    MissingRequiredField(&'static str),
    FlatBuffersError(String),
}

impl ConversionError {
    /// The display text of the error.
    pub open spec fn text(&self) -> Seq<char> {
        match self {
            ConversionError::InvalidStreamSource(v) => "Invalid StreamSource value: "@ + int_text(*v as int),
            ConversionError::InvalidTaskShell(v) => "Invalid TaskShell value: "@ + int_text(*v as int),
            ConversionError::InvalidTaskState(v) => "Invalid TaskState value: "@ + int_text(*v as int),
            ConversionError::InvalidProcessState(v) => "Invalid ProcessState value: "@ + int_text(*v as int),
            ConversionError::InvalidProcessControlAction(v) => "Invalid ProcessControlAction value: "@ + int_text(*v as int),
            ConversionError::InvalidTaskTerminateReasonType(v) => "Invalid TaskTerminateReasonType value: "@ + int_text(*v as int),
            ConversionError::InvalidTaskEventStopReasonType(v) => "Invalid TaskEventStopReasonType value: "@ + int_text(*v as int),
            ConversionError::InvalidTaskEventType(v) => "Invalid TaskEventType value: "@ + int_text(*v as int),
            ConversionError::InvalidTaskErrorType(v) => "Invalid TaskErrorType value: "@ + int_text(*v as int),
            ConversionError::MissingRequiredField(f) => "Missing required field: "@ + f@,
            ConversionError::FlatBuffersError(m) => "FlatBuffers error: "@ + m@,
        }
    }

    /// The display text of the error.
    pub fn to_string(&self) -> (s: String)
        ensures
            s@ == self.text(),
    {
        let (prefix, v): (&str, i8) = match self {
            ConversionError::InvalidStreamSource(v) => ("Invalid StreamSource value: ", *v),
            ConversionError::InvalidTaskShell(v) => ("Invalid TaskShell value: ", *v),
            ConversionError::InvalidTaskState(v) => ("Invalid TaskState value: ", *v),
            ConversionError::InvalidProcessState(v) => ("Invalid ProcessState value: ", *v),
            ConversionError::InvalidProcessControlAction(v) => ("Invalid ProcessControlAction value: ", *v),
            ConversionError::InvalidTaskTerminateReasonType(v) => ("Invalid TaskTerminateReasonType value: ", *v),
            ConversionError::InvalidTaskEventStopReasonType(v) => ("Invalid TaskEventStopReasonType value: ", *v),
            ConversionError::InvalidTaskEventType(v) => ("Invalid TaskEventType value: ", *v),
            ConversionError::InvalidTaskErrorType(v) => ("Invalid TaskErrorType value: ", *v),
            ConversionError::MissingRequiredField(f) => {
                return crate::text::cat2("Missing required field: ", f);
            },
            ConversionError::FlatBuffersError(m) => {
                return crate::text::cat2("FlatBuffers error: ", m.as_str());
            },
        };
        let mut s = prefix.to_string();
        crate::text::push_int(&mut s, v as i64);
        s
    }
}

/// Schema code of an error's kind.
pub open spec fn error_kind_fb(e: TaskError) -> i8 {
    match e {
        TaskError::IO(_) => 0,
        TaskError::Handle(_) => 1,
        TaskError::Channel(_) => 2,
        TaskError::InvalidConfiguration(_) => 3,
        TaskError::Control(_) => 4,
        TaskError::Custom(_) => 5,
    }
}

/// The message string an error carries.
pub open spec fn error_message(e: TaskError) -> String {
    match e {
        TaskError::IO(m) => m,
        TaskError::Handle(m) => m,
        TaskError::Channel(m) => m,
        TaskError::InvalidConfiguration(m) => m,
        TaskError::Control(m) => m,
        TaskError::Custom(m) => m,
    }
}

/// The record of an error: its kind's code and its message.
pub open spec fn error_record(e: TaskError) -> schema::TaskError {
    schema::TaskError { kind: schema::TaskErrorType(error_kind_fb(e)), message: Some(error_message(e)) }
}

/// The error of a kind code and a message; `None` for an unknown code.
pub open spec fn error_of_kind(kind: i8, m: String) -> Option<TaskError> {
    if kind == 0 {
        Some(TaskError::IO(m))
    } else if kind == 1 {
        Some(TaskError::Handle(m))
    } else if kind == 2 {
        Some(TaskError::Channel(m))
    } else if kind == 3 {
        Some(TaskError::InvalidConfiguration(m))
    } else if kind == 4 {
        Some(TaskError::Control(m))
    } else if kind == 5 {
        Some(TaskError::Custom(m))
    } else {
        None
    }
}

/// The error read from a record: an unknown kind code is refused first, then
/// a missing message.
pub open spec fn error_of_record(f: schema::TaskError) -> Result<TaskError, ConversionError> {
    if !(0 <= f.kind.0 <= 5) {
        Err(ConversionError::InvalidTaskErrorType(f.kind.0))
    } else {
        match f.message {
            None => Err(ConversionError::MissingRequiredField("message")),
            Some(m) => Ok(error_of_kind(f.kind.0, m)->0),
        }
    }
}

impl ToFlatbuffers for TaskError {
    type Output = schema::TaskError;

    /// The record of this error.
    fn to_flatbuffers(&self) -> (r: schema::TaskError)
        ensures
            r == error_record(*self),
    {
        let (kind, message) = match self {
            TaskError::IO(m) => (schema::TaskErrorType::io(), m.clone()),
            TaskError::Handle(m) => (schema::TaskErrorType::handle(), m.clone()),
            TaskError::Channel(m) => (schema::TaskErrorType::channel(), m.clone()),
            TaskError::InvalidConfiguration(m) => (
                schema::TaskErrorType::invalid_configuration(),
                m.clone(),
            ),
            TaskError::Control(m) => (schema::TaskErrorType::control(), m.clone()),
            TaskError::Custom(m) => (schema::TaskErrorType::custom(), m.clone()),
        };
        schema::TaskError { kind, message: Some(message) }
    }
}

impl FromFlatbuffers<schema::TaskError> for TaskError {
    /// Reads an error record.
    fn from_flatbuffers(fb_error: schema::TaskError) -> (r: Result<TaskError, ConversionError>)
        ensures
            r == error_of_record(fb_error),
    {
        let kind = fb_error.kind.0;
        if kind < 0 || kind > 5 {
            return Err(ConversionError::InvalidTaskErrorType(kind));
        }
        let message = match fb_error.message {
            Some(m) => m,
            None => {
                return Err(ConversionError::MissingRequiredField("message"));
            },
        };
        match kind {
            0 => Ok(TaskError::IO(message)),
            1 => Ok(TaskError::Handle(message)),
            2 => Ok(TaskError::Channel(message)),
            3 => Ok(TaskError::InvalidConfiguration(message)),
            4 => Ok(TaskError::Control(message)),
            _ => Ok(TaskError::Custom(message)),
        }
    }
}

/// Each error is written with the schema code of its own kind: IO 0,
/// Handle 1, Channel 2, InvalidConfiguration 3, Control 4, Custom 5.
pub proof fn error_kind_codes_law(m: String)
    ensures
        error_kind_fb(TaskError::IO(m)) == 0,
        error_kind_fb(TaskError::Handle(m)) == 1,
        error_kind_fb(TaskError::Channel(m)) == 2,
        error_kind_fb(TaskError::InvalidConfiguration(m)) == 3,
        error_kind_fb(TaskError::Control(m)) == 4,
        error_kind_fb(TaskError::Custom(m)) == 5,
{
}

/// Reading back the record of an error gives the error.
pub proof fn error_record_roundtrip(e: TaskError)
    ensures
        error_of_record(error_record(e)) == Ok::<TaskError, ConversionError>(e),
{
}

} // verus!
