use std::time::{SystemTime, UNIX_EPOCH};
use tcrm_task::flatbuffers::conversion::{FromFlatbuffers, ToFlatbuffers};
use tcrm_task::tasks::config::StreamSource;
use tcrm_task::tasks::error::TaskError;
use tcrm_task::tasks::event::{TaskEvent, TaskStopReason};
use tcrm_task::tasks::process::control::ProcessControlAction;

fn now_nanos() -> u64 {
    SystemTime::now().duration_since(UNIX_EPOCH).unwrap().as_nanos() as u64
}

#[test]
fn event_started_roundtrip() {
    let event = TaskEvent::Started {
        process_id: 12345,
        created_at: now_nanos(),
        running_at: now_nanos(),
    };

    let fb_event = event.to_flatbuffers();
    let roundtripped = TaskEvent::from_flatbuffers(fb_event).unwrap();

    if let (
        TaskEvent::Started { process_id: pid1, .. },
        TaskEvent::Started { process_id: pid2, .. },
    ) = (&event, &roundtripped)
    {
        assert_eq!(pid1, pid2, "Process IDs should match");
    } else {
        panic!("Events should both be Started variants");
    }
}

#[test]
fn event_output_roundtrip() {
    let event = TaskEvent::Output {
        line: "Hello, World!".to_string(),
        src: StreamSource::Stdout,
    };
    let roundtripped = TaskEvent::from_flatbuffers(event.to_flatbuffers()).unwrap();
    assert_eq!(event, roundtripped);
}

#[test]
fn event_ready_roundtrip() {
    let event = TaskEvent::Ready;
    let roundtripped = TaskEvent::from_flatbuffers(event.to_flatbuffers()).unwrap();
    assert_eq!(event, roundtripped);
}

#[test]
fn event_stopped_roundtrip() {
    let event = TaskEvent::Stopped {
        exit_code: Some(0),
        reason: TaskStopReason::Finished,
        finished_at: now_nanos(),
        signal: None,
    };

    let roundtripped = TaskEvent::from_flatbuffers(event.to_flatbuffers()).unwrap();

    if let (
        TaskEvent::Stopped { exit_code: ec1, reason: r1, .. },
        TaskEvent::Stopped { exit_code: ec2, reason: r2, .. },
    ) = (&event, &roundtripped)
    {
        assert_eq!(ec1, ec2, "Exit codes should match");
        assert_eq!(r1, r2, "Stop reasons should match");
    } else {
        panic!("Events should both be Stopped variants");
    }
}

#[test]
fn event_error_roundtrip() {
    let event = TaskEvent::Error {
        error: TaskError::IO("Test IO error".to_string()),
    };
    let roundtripped = TaskEvent::from_flatbuffers(event.to_flatbuffers()).unwrap();
    assert_eq!(event, roundtripped);
}

#[test]
fn event_process_control_roundtrip() {
    let event = TaskEvent::ProcessControl {
        action: ProcessControlAction::Pause,
    };
    let roundtripped = TaskEvent::from_flatbuffers(event.to_flatbuffers()).unwrap();
    assert_eq!(event, roundtripped);
}
