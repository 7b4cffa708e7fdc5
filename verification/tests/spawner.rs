use tcrm_task::tasks::async_tokio::direct::command::setup_command;
use tcrm_task::tasks::async_tokio::spawner::{join_failures, TaskInfo, TaskSpawner};
use tcrm_task::tasks::config::TaskConfig;
use tcrm_task::tasks::error::TaskError;
use tcrm_task::tasks::event::{TaskEvent, TaskTerminateReason};
use tcrm_task::tasks::state::TaskState;
use tokio::sync::{mpsc, oneshot};

fn spawner(name: &str) -> TaskSpawner {
    TaskSpawner::new(name.to_string(), TaskConfig::new("echo"))
}

#[test]
fn task_spawner_is_running_returns_true_when_state_running() {
    let mut spawner = spawner("running_task");
    assert!(!spawner.is_running(), "Should not be running initially");
    spawner.update_state(TaskState::Running);
    assert!(spawner.is_running(), "Should be running after update");
}

#[test]
fn task_spawner_is_ready_returns_true_when_state_ready() {
    let mut spawner = spawner("ready_task");
    assert!(!spawner.is_ready(), "Should not be ready initially");
    spawner.update_state(TaskState::Ready);
    assert!(spawner.is_ready(), "Should be ready after update");
}

#[test]
fn task_spawner_initial_state_is_pending() {
    let spawner = spawner("pending_task");
    assert_eq!(spawner.get_state(), TaskState::Pending, "Initial state should be Pending");
}

#[test]
fn task_spawner_update_state_changes_state() {
    let mut spawner = spawner("update_task");
    spawner.update_state(TaskState::Running);
    assert_eq!(spawner.get_state(), TaskState::Running, "State should be Running after update");
}

#[test]
fn task_spawner_get_task_info_returns_correct_info() {
    let spawner = spawner("info_task");
    let info: TaskInfo = spawner.get_task_info();
    assert_eq!(info.name, "info_task");
    assert_eq!(info.state, TaskState::Pending);
    assert!(info.uptime >= std::time::Duration::ZERO);
    assert_eq!(info.finished_at, None);
}

#[test]
fn task_spawner_process_id_initially_none() {
    let spawner = spawner("process_id_task");
    assert_eq!(spawner.get_process_id(), None);
}

#[test]
fn task_spawner_stdin_disabled_ignores_channel() {
    let config = TaskConfig::new("echo").enable_stdin(false);
    let (_tx, rx) = mpsc::channel::<String>(100);
    let mut spawner = TaskSpawner::new("no_stdin".to_string(), config).set_stdin(rx);
    assert!(spawner.take_stdin(true).is_none());
}

#[test]
fn task_spawner_stdin_enabled_keeps_channel() {
    let config = TaskConfig::new("cat").enable_stdin(true);
    let (_tx, rx) = mpsc::channel::<String>(100);
    let mut spawner = TaskSpawner::new("stdin".to_string(), config).set_stdin(rx);
    assert!(spawner.take_stdin(false).is_none());
    assert!(spawner.take_stdin(true).is_none());

    let (_tx2, rx2) = mpsc::channel::<String>(100);
    let config2 = TaskConfig::new("cat").enable_stdin(true);
    let mut spawner2 = TaskSpawner::new("stdin2".to_string(), config2).set_stdin(rx2);
    assert!(spawner2.take_stdin(true).is_some());
    assert!(spawner2.take_stdin(true).is_none());
}

#[test]
fn task_spawner_send_terminate_signal_no_channel() {
    let mut spawner = spawner("no_channel");
    let result = spawner.send_terminate_signal(TaskTerminateReason::Cleanup);
    assert!(result.is_err());
    if let Err(TaskError::Channel(msg)) = result {
        assert_eq!(msg, "Terminate signal already sent or channel missing");
    } else {
        panic!("Expected Channel error");
    }
}

#[test]
fn terminate_request_is_delivered_once() {
    let mut spawner = spawner("terminate");
    let (tx, mut rx) = oneshot::channel();
    spawner.arm_terminate(tx);
    assert!(spawner.send_terminate_signal(TaskTerminateReason::UserRequested).is_ok());
    assert_eq!(rx.try_recv().unwrap(), TaskTerminateReason::UserRequested);
    match spawner.send_terminate_signal(TaskTerminateReason::Timeout) {
        Err(TaskError::Channel(m)) => assert_eq!(m, "Terminate signal already sent or channel missing"),
        other => panic!("unexpected result: {:?}", other),
    }
}

#[test]
fn terminate_request_to_a_closed_channel_fails() {
    let mut spawner = spawner("closed");
    let (tx, rx) = oneshot::channel();
    drop(rx);
    spawner.arm_terminate(tx);
    match spawner.send_terminate_signal(TaskTerminateReason::Timeout) {
        Err(TaskError::Channel(m)) => assert_eq!(m, "Terminate channel closed while sending signal"),
        other => panic!("unexpected result: {:?}", other),
    }
}

#[test]
fn invalid_configuration_ends_the_start() {
    let mut spawner = TaskSpawner::new("bad_task".to_string(), TaskConfig::new(""));
    let (event, error) = spawner.begin_start().unwrap_err();
    assert_eq!(spawner.get_state(), TaskState::Finished);
    assert_eq!(error, TaskError::InvalidConfiguration("Command cannot be empty".to_string()));
    assert_eq!(event, TaskEvent::Error { error });
}

#[test]
fn valid_configuration_gives_the_command() {
    let config = TaskConfig::new("echo")
        .args(vec!["hi".to_string()])
        .env(vec![("K".to_string(), "v".to_string())])
        .enable_stdin(true);
    let mut spawner = TaskSpawner::new("ok".to_string(), config);
    let plan = spawner.begin_start().unwrap();
    assert_eq!(spawner.get_state(), TaskState::Initiating);
    assert_eq!(plan.program, "echo");
    assert_eq!(plan.args, Some(vec!["hi".to_string()]));
    assert_eq!(plan.working_dir, None);
    assert_eq!(plan.env, Some(vec![("K".to_string(), "v".to_string())]));
    assert!(plan.stdin_piped);
    assert!(!setup_command(&TaskConfig::new("echo")).stdin_piped);
}

#[test]
fn spawn_failure_and_missing_pid_end_the_start() {
    let mut spawner = spawner("spawn");
    let (event, error) = spawner.spawn_failed("No such file or directory".to_string());
    assert_eq!(spawner.get_state(), TaskState::Finished);
    assert_eq!(error, TaskError::IO("No such file or directory".to_string()));
    assert_eq!(event, TaskEvent::Error { error });

    let mut spawner2 = TaskSpawner::new("pid".to_string(), TaskConfig::new("echo"));
    let (event, error) = spawner2.process_started(None, 1, 2).unwrap_err();
    assert_eq!(spawner2.get_state(), TaskState::Finished);
    assert_eq!(error, TaskError::IO("Failed to get process id".to_string()));
    assert_eq!(event, TaskEvent::Error { error });
}

#[test]
fn started_process_is_running() {
    let mut spawner = spawner("started");
    let (pid, event) = spawner.process_started(Some(4321), 10, 20).unwrap();
    assert_eq!(pid, 4321);
    assert_eq!(spawner.get_state(), TaskState::Running);
    assert_eq!(spawner.get_process_id(), Some(4321));
    assert_eq!(event, TaskEvent::Started { process_id: 4321, created_at: 10, running_at: 20 });
}

#[test]
fn join_failures_are_listed_in_one_error() {
    assert!(join_failures(vec![]).is_ok());
    assert_eq!(
        join_failures(vec!["a".to_string()]),
        Err(TaskError::Handle("Multiple task handles join failures: a".to_string()))
    );
    assert_eq!(
        join_failures(vec!["a".to_string(), "b".to_string(), "c".to_string()]),
        Err(TaskError::Handle("Multiple task handles join failures: a; b; c".to_string()))
    );
}

#[test]
fn initial_task_state_should_be_pending() {
    assert_eq!(spawner("test_task").get_state(), TaskState::Pending);
}

#[test]
fn update_state_fn_should_be_able_to_update_state() {
    let mut s = spawner("test_task");
    s.update_state(TaskState::Finished);
    assert_eq!(s.get_state(), TaskState::Finished);
}

#[test]
fn get_task_info_fn_should_return_correct_imformation() {
    let s = spawner("test_task");
    let info = s.get_task_info();
    assert_eq!(info.name, "test_task");
    assert_eq!(info.state, TaskState::Pending);
}

#[test]
fn task_spawner_uptime_increases_over_time() {
    let spawner = spawner("uptime_task");
    let uptime1 = spawner.uptime();
    let runtime = tokio::runtime::Builder::new_current_thread().enable_time().build().unwrap();
    runtime.block_on(async { tokio::time::sleep(std::time::Duration::from_millis(20)).await });
    let uptime2 = spawner.uptime();
    assert!(uptime2 > uptime1, "Uptime should increase after sleep");
}

#[test]
fn is_running_fn_should_return_true_when_state_is_running_or_ready() {
    let mut spawner = spawner("test_task");
    assert!(!spawner.is_running());
    spawner.update_state(TaskState::Running);
    assert!(spawner.is_running());
    spawner.update_state(TaskState::Ready);
    assert!(spawner.is_running());
    spawner.update_state(TaskState::Finished);
    assert!(!spawner.is_running());
}

#[test]
fn failed_start_has_no_process_and_no_terminate_channel() {
    let mut spawner = TaskSpawner::new("bad".to_string(), TaskConfig::new("echo").timeout_ms(0));
    assert!(spawner.begin_start().is_err());
    assert_eq!(spawner.get_state(), TaskState::Finished);
    assert_eq!(spawner.get_process_id(), None);
    assert!(matches!(
        spawner.send_terminate_signal(TaskTerminateReason::Cleanup),
        Err(TaskError::Channel(_))
    ));
}
