//! Signalling a single process: interrupting, pausing and terminating it.
use vstd::prelude::*;
use crate::tasks::process::os::{
    errno_text, failure_text, kill, kill_answered, KillSignal, SignalFailure,
};
use crate::text::{dec_digits, int_text, push_dec, push_int};

pub mod interrupt;
pub mod pause;
pub mod stop;
pub mod terminate;

verus! {

/// Kind of a process signalling error; the `std::io::ErrorKind` it stands for.
#[derive(Debug, Clone, Copy, PartialEq, Eq, Structural)]
pub enum ProcessErrorKind {
    /// The process id is not one a signal can be sent to.
    InvalidInput,
    /// No process has that id.
    NotFound,
    /// Not permitted to signal the process.
    PermissionDenied,
    /// Any other failure.
    Other,
}

/// An error of signalling a process: its kind and message.
#[derive(Debug, Clone, PartialEq, Eq)]
pub struct ProcessError {
    /// The kind of failure.
    pub kind: ProcessErrorKind,
    /// What went wrong, for people.
    pub message: String,
}

impl View for ProcessError {
    type V = (ProcessErrorKind, Seq<char>);

    open spec fn view(&self) -> (ProcessErrorKind, Seq<char>) {
        (self.kind, self.message@)
    }
}

/// The view of an outcome.
pub open spec fn outcome_view(r: Result<(), ProcessError>) -> Result<(), (ProcessErrorKind, Seq<char>)> {
    match r {
        Ok(()) => Ok(()),
        Err(e) => Err(e@),
    }
}

/// What is done to a single process.
#[derive(Debug, Clone, Copy, PartialEq, Eq, Structural)]
pub enum SignalAction {
    /// Interrupt it with `SIGINT`.
    Interrupt,
    /// Pause it with `SIGSTOP`.
    Pause,
    /// Terminate it with `SIGTERM`.
    Terminate,
}

/// The signal an action sends.
pub open spec fn action_signal(a: SignalAction) -> KillSignal {
    match a {
        SignalAction::Interrupt => KillSignal::Interrupt,
        SignalAction::Pause => KillSignal::Stop,
        SignalAction::Terminate => KillSignal::Terminate,
    }
}

/// Each action on a process is delivered as the Unix signal its name says:
/// interrupting as `SIGINT`, pausing as `SIGSTOP` and terminating as
/// `SIGTERM`; two different actions never send the same signal.
pub proof fn action_signal_law(a: SignalAction, b: SignalAction)
    ensures
        action_signal(SignalAction::Interrupt) == KillSignal::Interrupt,
        action_signal(SignalAction::Pause) == KillSignal::Stop,
        action_signal(SignalAction::Terminate) == KillSignal::Terminate,
        a != b ==> action_signal(a) != action_signal(b),
{
}

/// The verb that names an action in messages.
pub open spec fn action_verb(a: SignalAction) -> Seq<char> {
    match a {
        SignalAction::Interrupt => "interrupt"@,
        SignalAction::Pause => "pause"@,
        SignalAction::Terminate => "terminate"@,
    }
}

/// The name of the signal an action sends, as messages give it.
pub open spec fn action_signal_name(a: SignalAction) -> Seq<char> {
    match a {
        SignalAction::Interrupt => "SIGINT"@,
        SignalAction::Pause => "SIGSTOP"@,
        SignalAction::Terminate => "SIGTERM"@,
    }
}

/// The error a failed delivery of an action's signal to process `pid` is
/// reported as.
pub open spec fn delivery_error(a: SignalAction, pid: int, f: SignalFailure) -> (ProcessErrorKind, Seq<char>) {
    match f {
        SignalFailure::NoSuchProcess => (
            ProcessErrorKind::NotFound,
            "Process with PID "@ + int_text(pid) + " does not exist"@,
        ),
        SignalFailure::PermissionDenied => (
            ProcessErrorKind::PermissionDenied,
            "Permission denied to "@ + action_verb(a) + " PID "@ + int_text(pid),
        ),
        SignalFailure::Other(_) => (
            ProcessErrorKind::Other,
            "Failed to send "@ + action_signal_name(a) + " to PID "@ + int_text(pid) + ": "@
                + errno_text(f),
        ),
    }
}

/// The outcome reported for an action on process `pid`, given what the
/// system answered to its signal.
pub open spec fn delivery_result(a: SignalAction, pid: int, o: Result<(), SignalFailure>) -> Result<
    (),
    (ProcessErrorKind, Seq<char>),
> {
    match o {
        Ok(()) => Ok(()),
        Err(f) => Err(delivery_error(a, pid, f)),
    }
}

/// The message of the rule a process id breaks before any signal is sent:
/// it must not be 0 and must fit in an `i32`.
pub open spec fn pid_check(pid: u32) -> Option<Seq<char>> {
    if pid == 0 {
        Some("Invalid PID: 0"@)
    } else if pid > i32::MAX {
        Some("PID "@ + dec_digits(pid as nat) + " is too large for this system"@)
    } else {
        None
    }
}

/// An action on one process succeeds exactly when the system delivered its
/// signal; a process that does not exist is reported as not found, a refusal
/// as permission denied, and any other failure as another error.
pub proof fn delivery_result_law(a: SignalAction, pid: int, o: Result<(), SignalFailure>)
    ensures
        delivery_result(a, pid, o) is Ok <==> o is Ok,
        o == Err::<(), SignalFailure>(SignalFailure::NoSuchProcess) ==> (delivery_result(a, pid, o)
            matches Err(e) && e.0 == ProcessErrorKind::NotFound),
        o == Err::<(), SignalFailure>(SignalFailure::PermissionDenied) ==> (delivery_result(a, pid, o)
            matches Err(e) && e.0 == ProcessErrorKind::PermissionDenied),
        o is Err && !(o == Err::<(), SignalFailure>(SignalFailure::NoSuchProcess)) && !(o == Err::<
            (),
            SignalFailure,
        >(SignalFailure::PermissionDenied)) ==> (delivery_result(a, pid, o) matches Err(e) && e.0
            == ProcessErrorKind::Other),
{
}

/// A process id is accepted before any signal is sent exactly when it is
/// positive and fits in an `i32`.
pub proof fn pid_check_law(pid: u32)
    ensures
        pid_check(pid) is None <==> 0 < pid <= i32::MAX,
{
}

/// `a`, the decimal text of `n`, then `b`.
fn around_int(a: &str, n: i64, b: &str) -> (s: String)
    ensures
        s@ == a@ + int_text(n as int) + b@,
{
    let mut s = a.to_string();
    push_int(&mut s, n);
    s.append(b);
    s
}

/// The error reported for an action on process `pid`, given the failure
/// the system answered.
pub fn delivery_failure(action: SignalAction, pid: i32, failure: SignalFailure) -> (e: ProcessError)
    ensures
        e@ == delivery_error(action, pid as int, failure),
{
    match failure {
        SignalFailure::NoSuchProcess => {
            let message = around_int("Process with PID ", pid as i64, " does not exist");
            ProcessError { kind: ProcessErrorKind::NotFound, message }
        },
        SignalFailure::PermissionDenied => {
            let prefix = match action {
                SignalAction::Interrupt => "Permission denied to interrupt PID ",
                SignalAction::Pause => "Permission denied to pause PID ",
                SignalAction::Terminate => "Permission denied to terminate PID ",
            };
            proof {
                reveal_strlit("Permission denied to interrupt PID ");
                reveal_strlit("Permission denied to pause PID ");
                reveal_strlit("Permission denied to terminate PID ");
                reveal_strlit("Permission denied to ");
                reveal_strlit("interrupt");
                reveal_strlit("pause");
                reveal_strlit("terminate");
                reveal_strlit(" PID ");
            }
            assert(prefix@ == "Permission denied to "@ + action_verb(action) + " PID "@);
            let mut message = prefix.to_string();
            push_int(&mut message, pid as i64);
            ProcessError { kind: ProcessErrorKind::PermissionDenied, message }
        },
        SignalFailure::Other(_) => {
            let prefix = match action {
                SignalAction::Interrupt => "Failed to send SIGINT to PID ",
                SignalAction::Pause => "Failed to send SIGSTOP to PID ",
                SignalAction::Terminate => "Failed to send SIGTERM to PID ",
            };
            proof {
                reveal_strlit("Failed to send SIGINT to PID ");
                reveal_strlit("Failed to send SIGSTOP to PID ");
                reveal_strlit("Failed to send SIGTERM to PID ");
                reveal_strlit("Failed to send ");
                reveal_strlit("SIGINT");
                reveal_strlit("SIGSTOP");
                reveal_strlit("SIGTERM");
                reveal_strlit(" to PID ");
            }
            assert(prefix@ == "Failed to send "@ + action_signal_name(action) + " to PID "@);
            let mut message = around_int(prefix, pid as i64, ": ");
            let text = failure_text(failure);
            message.append(text.as_str());
            ProcessError { kind: ProcessErrorKind::Other, message }
        },
    }
}

/// The outcome reported for an action on process `pid`, given what the
/// system answered to its signal.
pub fn delivery_outcome(action: SignalAction, pid: i32, outcome: Result<(), SignalFailure>) -> (r:
    Result<(), ProcessError>)
    ensures
        outcome_view(r) == delivery_result(action, pid as int, outcome),
{
    match outcome {
        Ok(()) => Ok(()),
        Err(f) => Err(delivery_failure(action, pid, f)),
    }
}

/// `r` is the outcome reported for an action on process `pid`: the action's
/// signal was sent to `pid`, and `r` reports the system's answer to it.
pub open spec fn signalled(action: SignalAction, pid: i32, r: Result<(), ProcessError>) -> bool {
    exists|o: Result<(), SignalFailure>|
        #[trigger] kill_answered(pid, action_signal(action), o) && delivery_result(action, pid as int, o)
            == outcome_view(r)
}

/// The signal an action sends.
pub fn kill_signal_for(action: SignalAction) -> (s: KillSignal)
    ensures
        s == action_signal(action),
{
    match action {
        SignalAction::Interrupt => KillSignal::Interrupt,
        SignalAction::Pause => KillSignal::Stop,
        SignalAction::Terminate => KillSignal::Terminate,
    }
}

/// Sends an action's signal to process `pid` and reports the system's answer.
pub fn signal_pid(action: SignalAction, pid: i32) -> (r: Result<(), ProcessError>)
    ensures
        signalled(action, pid, r),
{
    let outcome = kill(pid, kill_signal_for(action));
    let r = delivery_outcome(action, pid, outcome);
    assert(kill_answered(pid, action_signal(action), outcome));
    r
}

/// The process id as an `i32`, or the error of the rule it breaks.
pub fn checked_pid(pid: u32) -> (r: Result<i32, ProcessError>)
    ensures
        match pid_check(pid) {
            Some(m) => r matches Err(e) && e@ == (ProcessErrorKind::InvalidInput, m),
            None => r == Ok::<i32, ProcessError>(pid as i32),
        },
{
    if pid == 0 {
        return Err(
            ProcessError { kind: ProcessErrorKind::InvalidInput, message: "Invalid PID: 0".to_string() },
        );
    }
    if pid > 2147483647u32 {
        let mut message = "PID ".to_string();
        push_dec(&mut message, pid as u64);
        message.append(" is too large for this system");
        return Err(ProcessError { kind: ProcessErrorKind::InvalidInput, message });
    }
    Ok(pid as i32)
}

/// Checks the process id, then sends the action's signal to it.
pub fn checked_signal(action: SignalAction, pid: u32) -> (r: Result<(), ProcessError>)
    ensures
        match pid_check(pid) {
            Some(m) => r matches Err(e) && e@ == (ProcessErrorKind::InvalidInput, m),
            None => signalled(action, pid as i32, r),
        },
{
    let p = checked_pid(pid)?;
    signal_pid(action, p)
}

} // verus!
