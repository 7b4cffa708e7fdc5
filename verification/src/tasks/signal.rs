//! Signals that can be sent to a process by id.
use vstd::prelude::*;
use crate::tasks::process::action::{outcome_view, ProcessError, ProcessErrorKind};
use crate::tasks::process::os::{
    errno_text, failure_text, kill, kill_answered, KillSignal, SignalFailure,
};

verus! {

/// Unix signals that can be named for a process.
#[allow(non_camel_case_types)]
#[derive(Debug, Clone, Copy, PartialEq, Eq, Structural)]
pub enum ProcessSignal {
    /// Interrupt (Ctrl+C).
    SIGINT,
    /// Polite termination request.
    SIGTERM,
    /// Forced termination.
    SIGKILL,
    /// Resume a stopped process.
    SIGCONT,
    /// Stop (pause) a process.
    SIGSTOP,
    /// Hangup.
    SIGHUP,
    /// Quit with core dump.
    SIGQUIT,
    /// User-defined signal 1.
    SIGUSR1,
    /// User-defined signal 2.
    SIGUSR2,
    /// Broken pipe.
    SIGPIPE,
    /// Alarm clock.
    SIGALRM,
    /// Child status changed.
    SIGCHLD,
    /// Terminal stop (Ctrl+Z).
    SIGTSTP,
    /// Background read from terminal.
    SIGTTIN,
    /// Background write to terminal.
    SIGTTOU,
    /// Urgent data on a socket.
    SIGURG,
    /// CPU time limit exceeded.
    SIGXCPU,
    /// File size limit exceeded.
    SIGXFSZ,
    /// Virtual timer expired.
    SIGVTALRM,
    /// Profiling timer expired.
    SIGPROF,
    /// Window size changed.
    SIGWINCH,
    /// I/O possible.
    SIGIO,
    /// Power failure.
    SIGPWR,
}

/// The signal delivered for a process signal; only `SIGINT`, `SIGTERM`,
/// `SIGKILL`, `SIGCONT` and `SIGSTOP` are supported.
pub open spec fn supported_signal(s: ProcessSignal) -> Option<KillSignal> {
    match s {
        ProcessSignal::SIGINT => Some(KillSignal::Interrupt),
        ProcessSignal::SIGTERM => Some(KillSignal::Terminate),
        ProcessSignal::SIGKILL => Some(KillSignal::Kill),
        ProcessSignal::SIGCONT => Some(KillSignal::Continue),
        ProcessSignal::SIGSTOP => Some(KillSignal::Stop),
        _ => None,
    }
}

/// Exactly `SIGINT`, `SIGTERM`, `SIGKILL`, `SIGCONT` and `SIGSTOP` can be
/// sent to a process, each as the Unix signal of its own name; every other
/// signal is refused. Two different supported signals never deliver the same
/// Unix signal.
pub proof fn supported_signal_law(s: ProcessSignal, t: ProcessSignal)
    ensures
        supported_signal(ProcessSignal::SIGINT) == Some(KillSignal::Interrupt),
        supported_signal(ProcessSignal::SIGTERM) == Some(KillSignal::Terminate),
        supported_signal(ProcessSignal::SIGKILL) == Some(KillSignal::Kill),
        supported_signal(ProcessSignal::SIGCONT) == Some(KillSignal::Continue),
        supported_signal(ProcessSignal::SIGSTOP) == Some(KillSignal::Stop),
        supported_signal(s) is Some <==> (s == ProcessSignal::SIGINT || s == ProcessSignal::SIGTERM
            || s == ProcessSignal::SIGKILL || s == ProcessSignal::SIGCONT || s
            == ProcessSignal::SIGSTOP),
        supported_signal(s) is Some && s != t ==> supported_signal(s) != supported_signal(t),
{
}

/// The outcome reported for a sent signal: a failure is reported with the
/// system's own text of its error number.
pub open spec fn send_result(o: Result<(), SignalFailure>) -> Result<(), (ProcessErrorKind, Seq<char>)> {
    match o {
        Ok(()) => Ok(()),
        Err(f) => Err((ProcessErrorKind::Other, errno_text(f))),
    }
}

/// The outcome reported for a sent signal, given what the system answered.
pub fn send_outcome(outcome: Result<(), SignalFailure>) -> (r: Result<(), ProcessError>)
    ensures
        outcome_view(r) == send_result(outcome),
{
    match outcome {
        Ok(()) => Ok(()),
        Err(f) => Err(ProcessError { kind: ProcessErrorKind::Other, message: failure_text(f) }),
    }
}

/// The signal delivered for a process signal, if it is supported.
pub fn delivered_signal(signal: ProcessSignal) -> (s: Option<KillSignal>)
    ensures
        s == supported_signal(signal),
{
    match signal {
        ProcessSignal::SIGINT => Some(KillSignal::Interrupt),
        ProcessSignal::SIGTERM => Some(KillSignal::Terminate),
        ProcessSignal::SIGKILL => Some(KillSignal::Kill),
        ProcessSignal::SIGCONT => Some(KillSignal::Continue),
        ProcessSignal::SIGSTOP => Some(KillSignal::Stop),
        _ => None,
    }
}

/// Sends `signal` to the process `process_id` (read as an `i32`). Signals
/// other than `SIGINT`, `SIGTERM`, `SIGKILL`, `SIGCONT` and `SIGSTOP` are
/// refused with "Unsupported signal" and nothing is sent; otherwise the
/// signal is sent to that process and the outcome reports the system's answer.
pub fn send_signal_to_process_id(signal: ProcessSignal, process_id: u32) -> (r: Result<
    (),
    ProcessError,
>)
    ensures
        supported_signal(signal) is None ==> (r matches Err(e) && e@ == (
            ProcessErrorKind::Other,
            "Unsupported signal"@,
        )),
        supported_signal(signal) matches Some(s) ==> exists|o: Result<(), SignalFailure>|
            #[trigger] kill_answered(process_id as i32, s, o) && send_result(o) == outcome_view(r),
{
    let sig = match delivered_signal(signal) {
        Some(s) => s,
        None => {
            return Err(
                ProcessError {
                    kind: ProcessErrorKind::Other,
                    message: "Unsupported signal".to_string(),
                },
            );
        },
    };
    let outcome = kill(process_id as i32, sig);
    let r = send_outcome(outcome);
    assert(kill_answered(process_id as i32, sig, outcome));
    r
}

} // verus!
