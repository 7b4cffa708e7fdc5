use tcrm_task::tasks::process::action::{
    delivery_outcome, ProcessErrorKind, SignalAction,
};
use tcrm_task::tasks::process::action::interrupt::interrupt_process;
use tcrm_task::tasks::process::action::pause::pause_process;
use tcrm_task::tasks::process::action::stop;
use tcrm_task::tasks::process::action::terminate;
use tcrm_task::tasks::process::child;
use tcrm_task::tasks::process::group::action::group_delivery_outcome;
use tcrm_task::tasks::process::group::error::ProcessGroupError;
use tcrm_task::tasks::process::os::SignalFailure;
use tcrm_task::tasks::process::process_group::ProcessGroup;
use tcrm_task::tasks::signal::{send_signal_to_process_id, ProcessSignal};

// A process id far above any the system hands out.
const ABSENT_PID: u32 = 2147483646;

#[test]
fn pid_zero_is_invalid_input() {
    for r in [interrupt_process(0), pause_process(0), stop::terminate_process(0)] {
        let e = r.unwrap_err();
        assert_eq!(e.kind, ProcessErrorKind::InvalidInput);
        assert_eq!(e.message, "Invalid PID: 0");
    }
}

#[test]
fn pid_too_large_is_invalid_input() {
    let e = interrupt_process(3000000000).unwrap_err();
    assert_eq!(e.kind, ProcessErrorKind::InvalidInput);
    assert_eq!(e.message, "PID 3000000000 is too large for this system");
}

#[test]
fn absent_process_is_not_found() {
    let e = interrupt_process(ABSENT_PID).unwrap_err();
    assert_eq!(e.kind, ProcessErrorKind::NotFound);
    assert_eq!(e.message, "Process with PID 2147483646 does not exist");
    let e = pause_process(ABSENT_PID).unwrap_err();
    assert_eq!(e.kind, ProcessErrorKind::NotFound);
    let e = stop::terminate_process(ABSENT_PID).unwrap_err();
    assert_eq!(e.kind, ProcessErrorKind::NotFound);
}

#[test]
fn signed_pid_variant_reads_the_id_as_i32() {
    let e = terminate::terminate_process(u32::MAX).unwrap_err();
    assert_eq!(e.kind, ProcessErrorKind::InvalidInput);
    assert_eq!(e.message, "Invalid PID: -1");
    let e = child::terminate_process(0).unwrap_err();
    assert_eq!(e.message, "Invalid PID: 0");
    let e = terminate::terminate_process(ABSENT_PID).unwrap_err();
    assert_eq!(e.kind, ProcessErrorKind::NotFound);
    assert_eq!(e.message, "Process with PID 2147483646 does not exist");
}

#[test]
fn delivery_outcomes_are_reported_with_their_messages() {
    assert!(delivery_outcome(SignalAction::Pause, 7, Ok(())).is_ok());
    let e = delivery_outcome(SignalAction::Pause, 7, Err(SignalFailure::PermissionDenied)).unwrap_err();
    assert_eq!(e.kind, ProcessErrorKind::PermissionDenied);
    assert_eq!(e.message, "Permission denied to pause PID 7");
    let e = delivery_outcome(SignalAction::Interrupt, 42, Err(SignalFailure::Other(22))).unwrap_err();
    assert_eq!(e.kind, ProcessErrorKind::Other);
    assert_eq!(e.message, "Failed to send SIGINT to PID 42: EINVAL: Invalid argument");
    let e = delivery_outcome(SignalAction::Terminate, 9, Err(SignalFailure::NoSuchProcess)).unwrap_err();
    assert_eq!(e.kind, ProcessErrorKind::NotFound);
    assert_eq!(e.message, "Process with PID 9 does not exist");
}

#[test]
fn unsupported_signals_are_refused() {
    let e = send_signal_to_process_id(ProcessSignal::SIGHUP, ABSENT_PID).unwrap_err();
    assert_eq!(e.kind, ProcessErrorKind::Other);
    assert_eq!(e.message, "Unsupported signal");
    let e = send_signal_to_process_id(ProcessSignal::SIGTERM, ABSENT_PID).unwrap_err();
    assert_eq!(e.kind, ProcessErrorKind::Other);
    assert_eq!(e.message, "ESRCH: No such process");
}

#[test]
fn process_group_without_id_cannot_be_signalled() {
    let group = ProcessGroup::new();
    assert!(!group.is_active());
    for r in [group.terminate_group(), group.interrupt_group(), group.pause_group()] {
        match r {
            Err(ProcessGroupError::SignalFailed(m)) => assert_eq!(m, "No process group ID available"),
            other => panic!("unexpected result: {:?}", other),
        }
    }
}

#[test]
fn process_group_that_is_gone_counts_as_done() {
    let mut group = ProcessGroup::default();
    assert!(group.assign_child(ABSENT_PID).is_ok());
    assert!(group.is_active());
    assert_eq!(group.process_group_id, Some(ABSENT_PID as i32));
    assert!(group.terminate_group().is_ok());
    assert!(group.pause_group().is_ok());
}

#[test]
fn process_group_outcomes_are_reported_with_their_messages() {
    match group_delivery_outcome(SignalAction::Terminate, 12, Err(SignalFailure::PermissionDenied)) {
        Err(ProcessGroupError::SignalFailed(m)) => {
            assert_eq!(m, "Permission denied to terminate process group 12")
        }
        other => panic!("unexpected result: {:?}", other),
    }
    match group_delivery_outcome(SignalAction::Pause, 12, Err(SignalFailure::Other(22))) {
        Err(ProcessGroupError::SignalFailed(m)) => {
            assert_eq!(m, "Failed to send SIGSTOP to process group 12: EINVAL: Invalid argument")
        }
        other => panic!("unexpected result: {:?}", other),
    }
    assert!(group_delivery_outcome(SignalAction::Interrupt, 12, Err(SignalFailure::NoSuchProcess)).is_ok());
    let e = ProcessGroupError::AssignmentFailed("x".to_string());
    assert_eq!(e.to_string(), "Failed to assign process to group/job: x");
}
