//! The task spawner: a task's configuration and the state of its run.
use vstd::prelude::*;
use crate::tasks::async_tokio::direct::command::{setup_command, CommandPlan};
use crate::tasks::async_tokio::direct::start::{failed_start, validation_outcome};
use crate::tasks::async_tokio::direct::watchers::wait::WaitOutcome;
use crate::tasks::async_tokio::handles::{
    elapsed_answered, elapsed_since, instant_now, reason_sent, send_reason,
};
use crate::tasks::config::{config_check, opt_pairs, opt_str, opt_strs};
use crate::tasks::error::reports;
use crate::tasks::event::TaskEvent;
use crate::tasks::config::{TaskConfig, TaskConfigView};
use crate::tasks::error::TaskError;
use crate::tasks::event::TaskTerminateReason;
use crate::tasks::security::{dir_answered, strs};
use crate::tasks::state::TaskState;
use std::time::Duration;
use tokio::sync::{mpsc, oneshot};
use tokio::time::Instant;

verus! {

/// A snapshot of a task: its name, state, uptime and timestamps.
#[derive(Debug)]
pub struct TaskInfo {
    /// The task's name.
    pub name: String,
    /// The task's state.
    pub state: TaskState,
    /// How long ago the spawner was created.
    pub uptime: Duration,
    /// When the spawner was created.
    pub created_at: Instant,
    /// When the task finished, if it has.
    pub finished_at: Option<Instant>,
}

/// Spawns and manages one task: holds its configuration and the state of its
/// run, which moves Pending -> Initiating -> Running -> [Ready] -> Finished.
/// Its parts change only through its methods.
#[derive(Debug)]
pub struct TaskSpawner {
    pub(crate) config: TaskConfig,
    pub(crate) task_name: String,
    pub(crate) state: TaskState,
    pub(crate) terminate_tx: Option<oneshot::Sender<TaskTerminateReason>>,
    pub(crate) process_id: Option<u32>,
    pub(crate) created_at: Instant,
    pub(crate) finished_at: Option<Instant>,
    pub(crate) stdin_rx: Option<mpsc::Receiver<String>>,
}

/// The parts of a spawner.
pub struct TaskSpawnerView {
    /// What to run.
    pub config: TaskConfigView,
    /// The task's name.
    pub task_name: Seq<char>,
    /// Where the task is in its lifecycle.
    pub state: TaskState,
    /// Where a termination request is sent while the task runs; taken once used.
    pub terminate_tx: Option<oneshot::Sender<TaskTerminateReason>>,
    /// The process id while the process runs.
    pub process_id: Option<u32>,
    /// When the spawner was created.
    pub created_at: Instant,
    /// When the task finished, once it has.
    pub finished_at: Option<Instant>,
    /// Lines to write to the process's stdin, when stdin is enabled.
    pub stdin_rx: Option<mpsc::Receiver<String>>,
}

impl View for TaskSpawner {
    type V = TaskSpawnerView;

    closed spec fn view(&self) -> TaskSpawnerView {
        TaskSpawnerView {
            config: self.config@,
            task_name: self.task_name@,
            state: self.state,
            terminate_tx: self.terminate_tx,
            process_id: self.process_id,
            created_at: self.created_at,
            finished_at: self.finished_at,
            stdin_rx: self.stdin_rx,
        }
    }
}

/// Whether the configuration enables stdin (it is disabled unless set).
pub open spec fn stdin_enabled(c: TaskConfigView) -> bool {
    c.enable_stdin == Some(true)
}

impl TaskSpawner {
    /// A spawner for `config`, named `task_name`, in state Pending with no
    /// process, no termination channel and no stdin.
    pub fn new(task_name: String, config: TaskConfig) -> (s: Self)
        ensures
            s@.task_name == task_name@,
            s@.config == config@,
            s@.state == TaskState::Pending,
            s@.terminate_tx is None,
            s@.process_id is None,
            s@.finished_at is None,
            s@.stdin_rx is None,
    {
        TaskSpawner {
            task_name,
            config,
            state: TaskState::Pending,
            terminate_tx: None,
            process_id: None,
            created_at: instant_now(),
            finished_at: None,
            stdin_rx: None,
        }
    }

    /// Gives the task a channel of lines for its stdin. The channel is kept
    /// only when the configuration enables stdin; otherwise it is dropped.
    pub fn set_stdin(self, stdin_rx: mpsc::Receiver<String>) -> (s: Self)
        ensures
            s@ == (if stdin_enabled(self@.config) {
                TaskSpawnerView { stdin_rx: Some(stdin_rx), ..self@ }
            } else {
                self@
            }),
    {
        let enabled = match self.config.enable_stdin {
            Some(b) => b,
            None => false,
        };
        if enabled {
            TaskSpawner { stdin_rx: Some(stdin_rx), ..self }
        } else {
            self
        }
    }

    /// The configuration of the task.
    pub fn config(&self) -> (c: &TaskConfig)
        ensures
            c@ == self@.config,
    {
        &self.config
    }

    /// The task's state.
    pub fn get_state(&self) -> (s: TaskState)
        ensures
            s == self@.state,
    {
        self.state
    }

    /// Whether the task is running: in state Running or Ready (a ready task
    /// is still running).
    pub fn is_running(&self) -> (b: bool)
        ensures
            b == (self@.state == TaskState::Running || self@.state == TaskState::Ready),
    {
        self.state == TaskState::Running || self.state == TaskState::Ready
    }

    /// Whether the task is in state Ready.
    pub fn is_ready(&self) -> (b: bool)
        ensures
            b == (self@.state == TaskState::Ready),
    {
        self.state == TaskState::Ready
    }

    /// How long ago the spawner was created: the clock's reading of the time
    /// elapsed since the instant it was created at.
    pub fn uptime(&self) -> (d: Duration)
        ensures
            elapsed_answered(self@.created_at, d),
    {
        elapsed_since(&self.created_at)
    }

    /// A snapshot of the task; its uptime is the clock's reading of the time
    /// elapsed since the spawner was created.
    pub fn get_task_info(&self) -> (info: TaskInfo)
        ensures
            info.name@ == self@.task_name,
            info.state == self@.state,
            info.created_at == self@.created_at,
            info.finished_at == self@.finished_at,
            elapsed_answered(self@.created_at, info.uptime),
    {
        TaskInfo {
            name: self.task_name.clone(),
            state: self.state,
            uptime: self.uptime(),
            created_at: self.created_at,
            finished_at: self.finished_at,
        }
    }

    /// The process id while the process runs.
    pub fn get_process_id(&self) -> (p: Option<u32>)
        ensures
            p == self@.process_id,
    {
        self.process_id
    }

    /// Moves the task to `new_state`.
    pub fn update_state(&mut self, new_state: TaskState)
        ensures
            final(self)@ == (TaskSpawnerView { state: new_state, ..old(self)@ }),
    {
        self.state = new_state;
    }

    /// Asks the running task to terminate for `reason`. The termination
    /// channel is used once: without it, the request fails at once; with it,
    /// the request fails only when the task is no longer listening.
    pub fn send_terminate_signal(&mut self, reason: TaskTerminateReason) -> (r: Result<(), TaskError>)
        ensures
            final(self)@ == (TaskSpawnerView { terminate_tx: None, ..old(self)@ }),
            old(self)@.terminate_tx is None ==> (r matches Err(TaskError::Channel(m)) && m@
                == "Terminate signal already sent or channel missing"@),
            old(self)@.terminate_tx is Some ==> (r is Ok || (r matches Err(TaskError::Channel(m))
                && m@ == "Terminate channel closed while sending signal"@)),
            old(self)@.terminate_tx is Some ==> exists|o: Result<(), TaskTerminateReason>|
                #[trigger] reason_sent(reason, o) && (r is Ok <==> o is Ok),
    {
        match self.terminate_tx.take() {
            Some(tx) => {
                if send_reason(tx, reason).is_err() {
                    return Err(
                        TaskError::Channel("Terminate channel closed while sending signal".to_string()),
                    );
                }
                Ok(())
            },
            None => Err(
                TaskError::Channel("Terminate signal already sent or channel missing".to_string()),
            ),
        }
    }
}

/// The texts of `parts` in order, with `sep` between each two.
pub open spec fn joined(parts: Seq<Seq<char>>, sep: Seq<char>) -> Seq<char>
    decreases parts.len(),
{
    if parts.len() == 0 {
        Seq::empty()
    } else if parts.len() == 1 {
        parts[0]
    } else {
        joined(parts.drop_last(), sep) + sep + parts.last()
    }
}

/// The outcome of joining the watchers of a task, given the message of each
/// watcher that failed to finish (it panicked, or did not finish in time and
/// was aborted): success when none failed, else one Handle error listing
/// them all.
pub fn join_failures(failures: Vec<String>) -> (r: Result<(), TaskError>)
    ensures
        failures@.len() == 0 ==> r is Ok,
        failures@.len() > 0 ==> (r matches Err(TaskError::Handle(m)) && m@
            == "Multiple task handles join failures: "@ + joined(strs(failures@), "; "@)),
{
    if failures.len() == 0 {
        return Ok(());
    }
    let ghost parts = strs(failures@);
    let mut m = "Multiple task handles join failures: ".to_string();
    let ghost prefix = m@;
    m.append(failures[0].as_str());
    assert(parts.take(1) =~= seq![parts[0]]);
    let mut i: usize = 1;
    while i < failures.len()
        invariant
            1 <= i <= failures@.len(),
            parts == strs(failures@),
            m@ == prefix + joined(parts.take(i as int), "; "@),
        decreases failures@.len() - i,
    {
        m.append("; ");
        m.append(failures[i].as_str());
        assert(parts.take(i + 1).drop_last() =~= parts.take(i as int));
        assert(m@ =~= prefix + joined(parts.take(i + 1), "; "@));
        i = i + 1;
    }
    assert(parts.take(i as int) =~= parts);
    Err(TaskError::Handle(m))
}

impl TaskSpawner {
    /// First step of a start: the task moves to Initiating and its
    /// configuration is validated. A valid configuration gives the command
    /// to spawn; an invalid one moves the task to Finished and gives the
    /// validation error, with the Error event that reports it.
    pub fn begin_start(&mut self) -> (r: Result<CommandPlan, (TaskEvent, TaskError)>)
        ensures
            final(self)@.config == old(self)@.config,
            final(self)@.task_name == old(self)@.task_name,
            final(self)@.process_id == old(self)@.process_id,
            final(self)@.terminate_tx == old(self)@.terminate_tx,
            final(self)@.stdin_rx == old(self)@.stdin_rx,
            final(self)@.finished_at == old(self)@.finished_at,
            final(self)@.created_at == old(self)@.created_at,
            old(self)@.config.working_dir matches Some(p) ==> exists|e: bool, d: bool|
                #[trigger] dir_answered(p, e, d) && reports(
                    validation_outcome(r),
                    config_check(old(self)@.config, e, d),
                ),
            old(self)@.config.working_dir is None ==> reports(
                validation_outcome(r),
                config_check(old(self)@.config, true, true),
            ),
            match r {
                Ok(plan) => {
                    &&& final(self)@.state == TaskState::Initiating
                    &&& plan.program@ == old(self)@.config.command
                    &&& opt_strs(plan.args) == old(self)@.config.args
                    &&& opt_str(plan.working_dir) == old(self)@.config.working_dir
                    &&& opt_pairs(plan.env) == old(self)@.config.env
                    &&& plan.stdin_piped == stdin_enabled(old(self)@.config)
                },
                Err(f) => {
                    &&& final(self)@.state == TaskState::Finished
                    &&& failed_start(f)
                },
            },
    {
        self.state = TaskState::Initiating;
        match self.config.validate() {
            Ok(()) => {
                let plan = setup_command(&self.config);
                Ok(plan)
            },
            Err(e) => {
                self.state = TaskState::Finished;
                let event = TaskEvent::Error { error: e.clone() };
                Err((event, e))
            },
        }
    }

    /// The process could not be spawned, for the reason `message`: the task
    /// moves to Finished with an IO error, and its Error event.
    pub fn spawn_failed(&mut self, message: String) -> (r: (TaskEvent, TaskError))
        ensures
            final(self)@ == (TaskSpawnerView { state: TaskState::Finished, ..old(self)@ }),
            failed_start(r),
            r.1 == TaskError::IO(message),
    {
        self.state = TaskState::Finished;
        let error = TaskError::IO(message);
        (TaskEvent::Error { error: error.clone() }, error)
    }

    /// The process was spawned; `child_id` is its id if the system gave one,
    /// and the timestamps are when the task was created and when it started
    /// running. With an id the task records it and moves to Running, and its
    /// Started event is given; without one the task moves to Finished with
    /// the IO error "Failed to get process id".
    pub fn process_started(&mut self, child_id: Option<u32>, created_at: u64, running_at: u64) -> (r:
        Result<(u32, TaskEvent), (TaskEvent, TaskError)>)
        ensures
            match child_id {
                Some(id) => {
                    &&& final(self)@ == (TaskSpawnerView {
                        state: TaskState::Running,
                        process_id: Some(id),
                        ..old(self)@
                    })
                    &&& r == Ok::<(u32, TaskEvent), (TaskEvent, TaskError)>(
                        (id, TaskEvent::Started { process_id: id, created_at, running_at }),
                    )
                },
                None => {
                    &&& final(self)@ == (TaskSpawnerView { state: TaskState::Finished, ..old(self)@ })
                    &&& r matches Err(f)
                    &&& failed_start(f)
                    &&& f.1 matches TaskError::IO(m)
                    &&& m@ == "Failed to get process id"@
                },
            },
    {
        match child_id {
            Some(id) => {
                self.process_id = Some(id);
                self.state = TaskState::Running;
                Ok((id, TaskEvent::Started { process_id: id, created_at, running_at }))
            },
            None => {
                self.state = TaskState::Finished;
                let error = TaskError::IO("Failed to get process id".to_string());
                Err((TaskEvent::Error { error: error.clone() }, error))
            },
        }
    }

    /// Keeps the channel through which the running task can be asked to terminate.
    pub fn arm_terminate(&mut self, terminate_tx: oneshot::Sender<TaskTerminateReason>)
        ensures
            final(self)@ == (TaskSpawnerView { terminate_tx: Some(terminate_tx), ..old(self)@ }),
    {
        self.terminate_tx = Some(terminate_tx);
    }

    /// Hands over the stdin channel for a process whose stdin is piped
    /// (`child_has_stdin`). The spawner gives up its channel either way.
    pub fn take_stdin(&mut self, child_has_stdin: bool) -> (r: Option<mpsc::Receiver<String>>)
        ensures
            final(self)@ == (TaskSpawnerView { stdin_rx: None, ..old(self)@ }),
            r == (if child_has_stdin {
                old(self)@.stdin_rx
            } else {
                None
            }),
    {
        let rx = self.stdin_rx.take();
        if child_has_stdin {
            rx
        } else {
            None
        }
    }
}

impl TaskSpawner {
    /// Applies the end of waiting to the spawner: a killed task is Finished
    /// at once; unless killing failed, the process id is released. Returns
    /// whether the other watchers are told to stop (not when killing failed).
    pub fn wait_finished(&mut self, outcome: &WaitOutcome) -> (stop_watchers: bool)
        ensures
            stop_watchers == !(outcome is KillFailed),
            final(self)@ == (TaskSpawnerView {
                state: if outcome is Killed {
                    TaskState::Finished
                } else {
                    old(self)@.state
                },
                process_id: if outcome is KillFailed {
                    old(self)@.process_id
                } else {
                    None
                },
                ..old(self)@
            }),
    {
        match outcome {
            WaitOutcome::KillFailed(_) => false,
            WaitOutcome::Killed(_) => {
                self.state = TaskState::Finished;
                self.process_id = None;
                true
            },
            _ => {
                self.process_id = None;
                true
            },
        }
    }
}

impl TaskSpawner {
    /// The task has stopped: it is Finished, at `finished_at`.
    pub fn finish(&mut self, finished_at: Instant)
        ensures
            final(self)@ == (TaskSpawnerView {
                state: TaskState::Finished,
                finished_at: Some(finished_at),
                ..old(self)@
            }),
    {
        self.state = TaskState::Finished;
        self.finished_at = Some(finished_at);
    }
}

} // verus!
