//! Process groups for tasks run on tokio: the whole process tree of a task
//! can be terminated, paused, resumed or interrupted at once.
use vstd::prelude::*;
use crate::tasks::process::os::{
    errno_text, failure_text, killpg, killpg_answered, KillSignal, SignalFailure,
};

verus! {

/// Error type for process group operations.
#[derive(Debug)]
pub enum ProcessGroupError {
    /// The process group could not be created.
    CreationFailed(String),
    /// A process could not be placed in the group.
    AssignmentFailed(String),
    /// The group could not be terminated.
    TerminationFailed(String),
    /// A signal could not be sent to the group.
    SignalFailed(String),
}

impl ProcessGroupError {
    /// The display text of the error.
    pub open spec fn text(&self) -> Seq<char> {
        match self {
            ProcessGroupError::CreationFailed(m) => "Failed to create process group/job: "@ + m@,
            ProcessGroupError::AssignmentFailed(m) => "Failed to assign process to group/job: "@ + m@,
            ProcessGroupError::TerminationFailed(m) => "Failed to terminate process group/job: "@ + m@,
            ProcessGroupError::SignalFailed(m) => "Failed to send signal to process group: "@ + m@,
        }
    }

    /// The display text of the error.
    pub fn to_string(&self) -> (s: String)
        ensures
            s@ == self.text(),
    {
        match self {
            ProcessGroupError::CreationFailed(m) => crate::text::cat2(
                "Failed to create process group/job: ",
                m.as_str(),
            ),
            ProcessGroupError::AssignmentFailed(m) => crate::text::cat2(
                "Failed to assign process to group/job: ",
                m.as_str(),
            ),
            ProcessGroupError::TerminationFailed(m) => crate::text::cat2(
                "Failed to terminate process group/job: ",
                m.as_str(),
            ),
            ProcessGroupError::SignalFailed(m) => crate::text::cat2(
                "Failed to send signal to process group: ",
                m.as_str(),
            ),
        }
    }
}

/// Signals that can be sent to a whole process group.
#[derive(Debug, Clone, Copy, PartialEq, Eq, Structural)]
pub enum ProcessSignal {
    /// Kill every process in the group (`SIGKILL`).
    Terminate,
    /// Pause every process (`SIGSTOP`).
    Pause,
    /// Resume every paused process (`SIGCONT`).
    Resume,
    /// Interrupt every process (`SIGINT`).
    Interrupt,
}

/// The Unix signal delivered for a process group signal.
pub open spec fn group_signal(s: ProcessSignal) -> KillSignal {
    match s {
        ProcessSignal::Terminate => KillSignal::Kill,
        ProcessSignal::Pause => KillSignal::Stop,
        ProcessSignal::Resume => KillSignal::Continue,
        ProcessSignal::Interrupt => KillSignal::Interrupt,
    }
}

/// Each group signal is delivered as its own Unix signal: Terminate as
/// `SIGKILL`, Pause as `SIGSTOP`, Resume as `SIGCONT` and Interrupt as
/// `SIGINT`; two different group signals never deliver the same one.
pub proof fn group_signal_law(s: ProcessSignal, t: ProcessSignal)
    ensures
        group_signal(ProcessSignal::Terminate) == KillSignal::Kill,
        group_signal(ProcessSignal::Pause) == KillSignal::Stop,
        group_signal(ProcessSignal::Resume) == KillSignal::Continue,
        group_signal(ProcessSignal::Interrupt) == KillSignal::Interrupt,
        s != t ==> group_signal(s) != group_signal(t),
{
}

/// The outcome reported for a signal sent to a group: a group that no
/// longer exists counts as done; any other failure is reported with the
/// system's text of its error number.
pub open spec fn group_signal_result(o: Result<(), SignalFailure>) -> Result<(), Seq<char>> {
    match o {
        Ok(()) => Ok(()),
        Err(SignalFailure::NoSuchProcess) => Ok(()),
        Err(f) => Err("killpg failed: "@ + errno_text(f)),
    }
}

/// Signalling a group succeeds exactly when the system delivered the signal
/// or the group no longer exists; every other answer is an error.
pub proof fn group_signal_result_law(o: Result<(), SignalFailure>)
    ensures
        group_signal_result(o) is Ok <==> (o is Ok || o == Err::<(), SignalFailure>(
            SignalFailure::NoSuchProcess,
        )),
{
}

/// The message of a signalling outcome: `Some(Ok)` for success,
/// `Some(Err(m))` for `SignalFailed(m)`, `None` for any other error.
pub open spec fn signal_failed_view(r: Result<(), ProcessGroupError>) -> Option<Result<(), Seq<char>>> {
    match r {
        Ok(()) => Some(Ok(())),
        Err(ProcessGroupError::SignalFailed(m)) => Some(Err(m@)),
        Err(_) => None,
    }
}

/// The outcome reported for a signal sent to a group, given what the
/// system answered.
pub fn group_signal_outcome(outcome: Result<(), SignalFailure>) -> (r: Result<(), ProcessGroupError>)
    ensures
        signal_failed_view(r) == Some(group_signal_result(outcome)),
{
    match outcome {
        Ok(()) => Ok(()),
        Err(SignalFailure::NoSuchProcess) => Ok(()),
        Err(f) => {
            let text = failure_text(f);
            Err(ProcessGroupError::SignalFailed(crate::text::cat2("killpg failed: ", text.as_str())))
        },
    }
}

/// `r` is the outcome reported for `signal` sent to the process group
/// `pgid`: its Unix signal was sent to the group, and `r` reports the
/// system's answer.
pub open spec fn group_signal_sent(pgid: i32, signal: ProcessSignal, r: Result<(), ProcessGroupError>) -> bool {
    exists|o: Result<(), SignalFailure>|
        #[trigger] killpg_answered(pgid, group_signal(signal), o) && Some(group_signal_result(o))
            == signal_failed_view(r)
}

/// The Unix signal delivered for a process group signal.
pub fn group_kill_signal(signal: ProcessSignal) -> (s: KillSignal)
    ensures
        s == group_signal(signal),
{
    match signal {
        ProcessSignal::Terminate => KillSignal::Kill,
        ProcessSignal::Pause => KillSignal::Stop,
        ProcessSignal::Resume => KillSignal::Continue,
        ProcessSignal::Interrupt => KillSignal::Interrupt,
    }
}

/// The process group of a task: the group led by its child process, once
/// the child is assigned. Without a group there is nothing to signal.
#[derive(Debug, Clone)]
pub struct ProcessGroup {
    /// The group id: the id of the child that leads the group.
    pub process_group_id: Option<i32>,
}

impl Default for ProcessGroup {
    /// A group with no child assigned yet.
    fn default() -> (g: Self)
        ensures
            g.process_group_id is None,
    {
        ProcessGroup { process_group_id: None }
    }
}

impl ProcessGroup {
    /// Makes the child the group's leader: its id, when it has one (read as
    /// an `i32`), becomes the group id; a child without an id leaves the
    /// group without one.
    pub fn assign_child(&mut self, child_id: Option<u32>) -> (r: Result<(), ProcessGroupError>)
        ensures
            r is Ok,
            final(self).process_group_id == match child_id {
                Some(id) => Some(id as i32),
                None => None::<i32>,
            },
    {
        self.process_group_id = match child_id {
            Some(id) => Some(id as i32),
            None => None,
        };
        Ok(())
    }

    /// Sends `signal` to every process in the group (its Unix signal, to the
    /// group) and reports the system's answer. Without a group id nothing is
    /// sent and the outcome is success.
    pub fn send_signal(&self, signal: ProcessSignal) -> (r: Result<(), ProcessGroupError>)
        ensures
            self.process_group_id is None ==> r is Ok,
            self.process_group_id matches Some(g) ==> group_signal_sent(g, signal, r),
    {
        match self.process_group_id {
            Some(pgid) => {
                let outcome = killpg(pgid, group_kill_signal(signal));
                let r = group_signal_outcome(outcome);
                assert(killpg_answered(pgid, group_signal(signal), outcome));
                r
            },
            None => Ok(()),
        }
    }

    /// Kills every process in the group (`SIGKILL`).
    pub fn terminate_all(&self) -> (r: Result<(), ProcessGroupError>)
        ensures
            self.process_group_id is None ==> r is Ok,
            self.process_group_id matches Some(g) ==> group_signal_sent(g, ProcessSignal::Terminate, r),
    {
        self.send_signal(ProcessSignal::Terminate)
    }

    /// Pauses every process in the group (`SIGSTOP`).
    pub fn pause_all(&self) -> (r: Result<(), ProcessGroupError>)
        ensures
            self.process_group_id is None ==> r is Ok,
            self.process_group_id matches Some(g) ==> group_signal_sent(g, ProcessSignal::Pause, r),
    {
        self.send_signal(ProcessSignal::Pause)
    }

    /// Resumes every paused process in the group (`SIGCONT`).
    pub fn resume_all(&self) -> (r: Result<(), ProcessGroupError>)
        ensures
            self.process_group_id is None ==> r is Ok,
            self.process_group_id matches Some(g) ==> group_signal_sent(g, ProcessSignal::Resume, r),
    {
        self.send_signal(ProcessSignal::Resume)
    }

    /// Interrupts every process in the group (`SIGINT`).
    pub fn interrupt_all(&self) -> (r: Result<(), ProcessGroupError>)
        ensures
            self.process_group_id is None ==> r is Ok,
            self.process_group_id matches Some(g) ==> group_signal_sent(g, ProcessSignal::Interrupt, r),
    {
        self.send_signal(ProcessSignal::Interrupt)
    }
}

} // verus!
