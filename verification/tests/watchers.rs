use tcrm_task::tasks::async_tokio::direct::watchers::input::stdin_line;
use tcrm_task::tasks::async_tokio::direct::watchers::output::{spawn_output_watchers, OutputWatcher};
use tcrm_task::tasks::async_tokio::direct::watchers::result::stopped_event;
use tcrm_task::tasks::async_tokio::direct::watchers::wait::{wait_result, TaskResult, WaitOutcome};
use tcrm_task::tasks::async_tokio::spawner::TaskSpawner;
use tcrm_task::tasks::config::{StreamSource, TaskConfig};
use tcrm_task::tasks::error::TaskError;
use tcrm_task::tasks::event::{TaskEvent, TaskStopReason, TaskTerminateReason};
use tcrm_task::tasks::state::TaskState;

/// Feeds lines to a watcher and collects the events it asks for.
fn run(watcher: &mut OutputWatcher, text: &str) -> Vec<TaskEvent> {
    let mut events = Vec::new();
    for line in text.lines() {
        let (output, ready) = watcher.on_line(line.to_string());
        events.push(output);
        if ready {
            events.push(TaskEvent::Ready);
        }
    }
    events
}

#[test]
fn does_not_emit_ready_if_source_mismatch() {
    let mut w = OutputWatcher::new(
        StreamSource::Stdout,
        Some("READY_INDICATOR".to_string()),
        Some(StreamSource::Stderr),
    );
    let events = run(&mut w, "foo\nREADY_INDICATOR\nbar\n");
    assert!(
        !events.contains(&TaskEvent::Ready),
        "Should NOT emit Ready event if ready_indicator_source does not match src"
    );
}

#[test]
fn emits_ready_and_output_events() {
    let mut w = OutputWatcher::new(
        StreamSource::Stdout,
        Some("READY_INDICATOR".to_string()),
        Some(StreamSource::Stdout),
    );
    let events = run(&mut w, "first line\nREADY_INDICATOR\nlast line\n");
    let lines: Vec<String> = events
        .iter()
        .filter_map(|e| match e {
            TaskEvent::Output { line, src } => {
                assert_eq!(*src, StreamSource::Stdout);
                Some(line.clone())
            }
            _ => None,
        })
        .collect();
    assert_eq!(lines, vec!["first line", "READY_INDICATOR", "last line"]);
    assert!(events.contains(&TaskEvent::Ready), "Should emit Ready event when ready_indicator is present");
    assert_eq!(events[2], TaskEvent::Ready);
}

#[test]
fn ready_is_emitted_once_and_only_for_the_indicator() {
    let mut w = OutputWatcher::new(StreamSource::Stderr, Some("up".to_string()), Some(StreamSource::Stderr));
    let events = run(&mut w, "starting\nserver up\nstill up\n");
    assert_eq!(events.iter().filter(|e| **e == TaskEvent::Ready).count(), 1);
    assert_eq!(events[2], TaskEvent::Ready);
    assert!(w.ready_found);

    let mut none = OutputWatcher::new(StreamSource::Stdout, None, None);
    assert!(run(&mut none, "a\nb\n").iter().all(|e| *e != TaskEvent::Ready));
}

#[test]
fn watchers_follow_the_piped_streams() {
    let ws = spawn_output_watchers(true, true, Some("R".to_string()), None);
    assert_eq!(ws.len(), 2);
    assert_eq!(ws[0].src, StreamSource::Stdout);
    assert_eq!(ws[1].src, StreamSource::Stderr);
    assert_eq!(ws[1].ready_indicator_source, StreamSource::Stdout);
    let ws = spawn_output_watchers(false, true, None, Some(StreamSource::Stderr));
    assert_eq!(ws.len(), 1);
    assert_eq!(ws[0].src, StreamSource::Stderr);
}

#[test]
fn stdin_lines_end_with_one_newline() {
    assert_eq!(stdin_line("hello".to_string()), "hello\n");
    assert_eq!(stdin_line("hello\n".to_string()), "hello\n");
    assert_eq!(stdin_line(String::new()), "\n");
}

#[test]
fn wait_outcomes_decide_the_result() {
    let r = wait_result("t", WaitOutcome::Exited { code: Some(3), signal: None });
    assert_eq!(r.exit_code, Some(3));
    assert_eq!(r.reason, TaskStopReason::Finished);
    let r = wait_result("t", WaitOutcome::Killed(Some(TaskTerminateReason::Timeout)));
    assert_eq!(r.reason, TaskStopReason::Terminated(TaskTerminateReason::Timeout));
    let r = wait_result("t", WaitOutcome::Killed(None));
    assert_eq!(r.reason, TaskStopReason::Terminated(TaskTerminateReason::Cleanup));
    let r = wait_result("t", WaitOutcome::WaitFailed("boom".to_string()));
    assert_eq!(r.reason, TaskStopReason::Error(TaskError::Handle("boom".to_string())));
    let r = wait_result("job", WaitOutcome::KillFailed("denied".to_string()));
    assert_eq!(
        r.reason,
        TaskStopReason::Error(TaskError::Handle("Failed to terminate task job: denied".to_string()))
    );
    assert_eq!(r.exit_code, None);
}

#[test]
fn end_of_wait_releases_the_process() {
    let mut s = TaskSpawner::new("w".to_string(), TaskConfig::new("echo"));
    s.process_started(Some(99), 0, 0).unwrap();
    assert!(s.wait_finished(&WaitOutcome::Killed(None)));
    assert_eq!(s.get_state(), TaskState::Finished);
    assert_eq!(s.get_process_id(), None);

    let mut s = TaskSpawner::new("w".to_string(), TaskConfig::new("echo"));
    s.process_started(Some(99), 0, 0).unwrap();
    assert!(!s.wait_finished(&WaitOutcome::KillFailed("x".to_string())));
    assert_eq!(s.get_process_id(), Some(99));
    assert_eq!(s.get_state(), TaskState::Running);

    assert!(s.wait_finished(&WaitOutcome::Exited { code: Some(0), signal: None }));
    assert_eq!(s.get_process_id(), None);
    assert_eq!(s.get_state(), TaskState::Running);
}

#[test]
fn stopped_event_reports_the_result() {
    let ev = stopped_event(
        Some(TaskResult { exit_code: Some(1), reason: TaskStopReason::Finished, signal: None }),
        77,
    );
    assert_eq!(
        ev,
        TaskEvent::Stopped { exit_code: Some(1), reason: TaskStopReason::Finished, finished_at: 77, signal: None }
    );
    let ev = stopped_event(None, 5);
    assert_eq!(
        ev,
        TaskEvent::Stopped {
            exit_code: None,
            reason: TaskStopReason::Error(TaskError::Channel(
                "All result senders dropped unexpectedly".to_string()
            )),
            finished_at: 5,
            signal: None,
        }
    );
    let mut s = TaskSpawner::new("f".to_string(), TaskConfig::new("echo"));
    let now = tokio::time::Instant::now();
    s.finish(now);
    assert_eq!(s.get_state(), TaskState::Finished);
    assert_eq!(s.get_task_info().finished_at, Some(now));
}
