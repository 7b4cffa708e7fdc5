use tcrm_task::flatbuffers::conversion::ToFlatbuffersUnion;
use tcrm_task::flatbuffers::schema;
use tcrm_task::tasks::event::TaskTerminateReason;
use tcrm_task::tasks::process::control::ProcessControlAction;
use tcrm_task::tasks::state::{ProcessState, TaskState};

#[test]
fn task_state_roundtrip() {
    let test_cases = vec![
        TaskState::Pending,
        TaskState::Initiating,
        TaskState::Running,
        TaskState::Ready,
        TaskState::Finished,
    ];

    for original_state in test_cases {
        let fb_state: schema::TaskState = original_state.clone().into();
        let converted_state = TaskState::try_from(fb_state).unwrap();
        assert_eq!(original_state, converted_state, "TaskState roundtrip failed for {:?}", original_state);
    }
}

#[test]
fn process_state_roundtrip() {
    let test_cases = vec![ProcessState::Running, ProcessState::Stopped];

    for original_state in test_cases {
        let fb_state: schema::ProcessState = original_state.into();
        let converted_state = ProcessState::try_from(fb_state).unwrap();
        assert_eq!(original_state, converted_state, "ProcessState roundtrip failed for {:?}", original_state);
    }
}

#[test]
fn process_control_action_roundtrip() {
    let test_cases = vec![
        ProcessControlAction::Pause,
        ProcessControlAction::Resume,
        ProcessControlAction::Stop,
    ];

    for original_action in test_cases {
        let fb_action: schema::ProcessControlAction = original_action.into();
        let converted_action = ProcessControlAction::try_from(fb_action).unwrap();
        assert_eq!(
            original_action, converted_action,
            "ProcessControlAction roundtrip failed for {:?}",
            original_action
        );
    }
}

#[test]
fn enum_value_limits() {
    assert!(schema::TaskState::pending().0 >= -128 && schema::TaskState::pending().0 <= 127);
    assert!(schema::TaskState::initiating().0 >= -128 && schema::TaskState::initiating().0 <= 127);
    assert!(schema::TaskState::running().0 >= -128 && schema::TaskState::running().0 <= 127);
    assert!(schema::TaskState::ready().0 >= -128 && schema::TaskState::ready().0 <= 127);
    assert!(schema::TaskState::finished().0 >= -128 && schema::TaskState::finished().0 <= 127);
    assert!(schema::TaskState::invalid().0 >= -128 && schema::TaskState::invalid().0 <= 127);

    assert!(schema::ProcessState::running().0 >= -128 && schema::ProcessState::running().0 <= 127);
    assert!(schema::ProcessState::stopped().0 >= -128 && schema::ProcessState::stopped().0 <= 127);
    assert!(schema::ProcessState::invalid().0 >= -128 && schema::ProcessState::invalid().0 <= 127);

    assert!(
        schema::ProcessControlAction::pause().0 >= -128
            && schema::ProcessControlAction::pause().0 <= 127
    );
    assert!(
        schema::ProcessControlAction::resume().0 >= -128
            && schema::ProcessControlAction::resume().0 <= 127
    );
    assert!(
        schema::ProcessControlAction::stop().0 >= -128
            && schema::ProcessControlAction::stop().0 <= 127
    );
}

#[test]
fn terminate_reason_roundtrip() {
    let test_cases = vec![
        TaskTerminateReason::Timeout,
        TaskTerminateReason::Cleanup,
        TaskTerminateReason::DependenciesFinished,
    ];

    for original_reason in test_cases {
        let fb_reason: schema::TaskTerminateReason = original_reason.clone().into();
        let converted_reason = TaskTerminateReason::try_from(fb_reason).unwrap();
        assert_eq!(original_reason, converted_reason);
    }
}

#[test]
fn terminate_reason_to_flatbuffers_terminated() {
    let reasons = vec![
        TaskTerminateReason::UserRequested,
        TaskTerminateReason::Timeout,
        TaskTerminateReason::Cleanup,
        TaskTerminateReason::DependenciesFinished,
        TaskTerminateReason::InternalError,
    ];

    for reason in reasons {
        let (stop_reason, _table) = reason.to_flatbuffers_union();

        match reason {
            TaskTerminateReason::Timeout => {
                assert_eq!(stop_reason, schema::TaskEventStopReason::terminated_timeout());
            }
            TaskTerminateReason::Cleanup => {
                assert_eq!(stop_reason, schema::TaskEventStopReason::terminated_cleanup());
            }
            TaskTerminateReason::DependenciesFinished => {
                assert_eq!(
                    stop_reason,
                    schema::TaskEventStopReason::terminated_dependencies_finished()
                );
            }
            TaskTerminateReason::UserRequested => {
                assert_eq!(stop_reason, schema::TaskEventStopReason::terminated_user_requested());
            }
            TaskTerminateReason::InternalError => {
                assert_eq!(stop_reason, schema::TaskEventStopReason::terminated_internal_error());
            }
        }
    }
}
