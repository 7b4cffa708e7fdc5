use tcrm_task::flatbuffers::conversion::{ConversionError, FromFlatbuffers, ToFlatbuffers};
use tcrm_task::flatbuffers::schema;
use tcrm_task::tasks::config::TaskConfig;
use tcrm_task::tasks::error::TaskError;
use tcrm_task::tasks::event::{TaskEvent, TaskStopReason, TaskTerminateReason};
use tcrm_task::tasks::state::{ProcessState, TaskState};

#[test]
fn error_stop_reason_reads_back_as_its_display_text() {
    let event = TaskEvent::Stopped {
        exit_code: None,
        reason: TaskStopReason::Error(TaskError::Channel("x".to_string())),
        finished_at: 9,
        signal: Some(15),
    };
    let back = TaskEvent::from_flatbuffers(event.to_flatbuffers()).unwrap();
    assert_eq!(
        back,
        TaskEvent::Stopped {
            exit_code: None,
            reason: TaskStopReason::Error(TaskError::IO("Channel error: x".to_string())),
            finished_at: 9,
            signal: Some(15),
        }
    );
}

#[test]
fn sentinels_stand_for_absent_exit_code_and_signal() {
    let event = TaskEvent::Stopped {
        exit_code: None,
        reason: TaskStopReason::Terminated(TaskTerminateReason::UserRequested),
        finished_at: 1,
        signal: None,
    };
    let record = event.to_flatbuffers();
    match &record.event {
        Some(schema::UnionValue::StoppedEvent(s)) => {
            assert_eq!(s.exit_code, i32::MIN);
            assert_eq!(s.signal, 0);
            assert_eq!(s.reason_type, schema::TaskEventStopReason::terminated_user_requested());
        }
        other => panic!("unexpected table: {:?}", other),
    }
    assert_eq!(TaskEvent::from_flatbuffers(record).unwrap(), event);
}

#[test]
fn malformed_records_are_refused() {
    let r = TaskEvent::from_flatbuffers(schema::TaskEvent { event_type: schema::TaskEventUnion(9), event: None });
    assert!(matches!(r, Err(ConversionError::InvalidTaskEventType(9))));
    let r = TaskEvent::from_flatbuffers(schema::TaskEvent { event_type: schema::TaskEventUnion::output(), event: None });
    assert!(matches!(r, Err(ConversionError::MissingRequiredField("event"))));
    let r = TaskEvent::from_flatbuffers(schema::TaskEvent {
        event_type: schema::TaskEventUnion::ready(),
        event: None,
    });
    assert_eq!(r.unwrap(), TaskEvent::Ready);
    let r = TaskStopReason::from_flatbuffers((schema::TaskEventStopReason(0), None));
    assert!(matches!(r, Err(ConversionError::InvalidTaskEventStopReasonType(0))));
    let r = TaskError::from_flatbuffers(schema::TaskError { kind: schema::TaskErrorType(9), message: None });
    assert!(matches!(r, Err(ConversionError::InvalidTaskErrorType(9))));
    let r = TaskError::from_flatbuffers(schema::TaskError { kind: schema::TaskErrorType::io(), message: None });
    assert!(matches!(r, Err(ConversionError::MissingRequiredField("message"))));
    let r = TaskState::try_from(schema::TaskState::invalid());
    assert!(matches!(r, Err(ConversionError::InvalidTaskState(5))));
    let r = TaskTerminateReason::try_from(schema::TaskTerminateReason::user_requested());
    assert!(matches!(r, Err(ConversionError::InvalidTaskTerminateReasonType(3))));
}

#[test]
fn state_codes() {
    assert_eq!(TaskState::from(7u8), TaskState::Invalid);
    assert_eq!(u8::from(TaskState::Ready), 3);
    assert_eq!(ProcessState::from(2u8), ProcessState::Pause);
    assert_eq!(ProcessState::from(0u8), ProcessState::Stopped);
    assert_eq!(ProcessState::from(9u8), ProcessState::Stopped);
    assert_eq!(ProcessState::from(255u8), ProcessState::Stopped);
    assert_eq!(u8::from(ProcessState::Invalid), 255);
}

#[test]
fn error_texts() {
    assert_eq!(TaskError::IO("x".to_string()).to_string(), "IO error: x");
    assert_eq!(
        TaskError::InvalidConfiguration("y".to_string()).to_string(),
        "Invalid configuration: y"
    );
    assert_eq!(
        ConversionError::MissingRequiredField("event").to_string(),
        "Missing required field: event"
    );
    assert_eq!(ConversionError::InvalidStreamSource(-3).to_string(), "Invalid StreamSource value: -3");
}

#[test]
fn strict_reading_refuses_unknown_sources() {
    let mut record = TaskConfig::new("x").to_flatbuffers();
    record.ready_indicator_source = schema::StreamSource(4);
    assert!(matches!(TaskConfig::from_flatbuffers(record.clone()), Err(ConversionError::InvalidStreamSource(4))));
    let lenient = TaskConfig::try_from(record).unwrap();
    assert_eq!(lenient.ready_indicator_source, None);
}
