use tcrm_task::tasks::async_tokio::process_group::{
    group_signal_outcome, ProcessGroup, ProcessGroupError, ProcessSignal,
};
use tcrm_task::tasks::process::os::SignalFailure;

#[test]
fn group_without_child_has_nothing_to_signal() {
    let group = ProcessGroup::default();
    assert!(group.terminate_all().is_ok());
    assert!(group.pause_all().is_ok());
    assert!(group.resume_all().is_ok());
    assert!(group.interrupt_all().is_ok());
}

#[test]
fn assigning_a_child_records_its_id() {
    let mut group = ProcessGroup::default();
    assert!(group.assign_child(Some(2147483646)).is_ok());
    assert_eq!(group.process_group_id, Some(2147483646));
    // The group no longer exists: that counts as done.
    assert!(group.send_signal(ProcessSignal::Terminate).is_ok());
    assert!(group.assign_child(None).is_ok());
    assert_eq!(group.process_group_id, None);
}

#[test]
fn failures_other_than_a_missing_group_are_reported() {
    match group_signal_outcome(Err(SignalFailure::PermissionDenied)) {
        Err(ProcessGroupError::SignalFailed(m)) => {
            assert_eq!(m, "killpg failed: EPERM: Operation not permitted")
        }
        other => panic!("unexpected result: {:?}", other),
    }
    assert!(group_signal_outcome(Err(SignalFailure::NoSuchProcess)).is_ok());
    assert!(group_signal_outcome(Ok(())).is_ok());
    let e = ProcessGroupError::TerminationFailed("t".to_string());
    assert_eq!(e.to_string(), "Failed to terminate process group/job: t");
}
