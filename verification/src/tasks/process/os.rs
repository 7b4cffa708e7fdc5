//! Delivery of signals to processes and process groups through `nix`.
use vstd::prelude::*;
use nix::errno::Errno;
use nix::sys::signal::Signal;

verus! {

/// The signals this library delivers.
#[derive(Debug, Clone, Copy, PartialEq, Eq, Structural)]
pub enum KillSignal {
    /// `SIGINT`: interrupt.
    Interrupt,
    /// `SIGTERM`: polite termination.
    Terminate,
    /// `SIGKILL`: forced termination.
    Kill,
    /// `SIGCONT`: resume a stopped process.
    Continue,
    /// `SIGSTOP`: stop (pause) a process.
    Stop,
}

/// What the operating system answered when a signal was not delivered.
#[derive(Debug, Clone, Copy, PartialEq, Eq, Structural)]
pub enum SignalFailure {
    /// `ESRCH`: no such process or process group.
    NoSuchProcess,
    /// `EPERM`: not permitted to signal it.
    PermissionDenied,
    /// Any other error number, as reported.
    Other(i32),
}

/// The display text `nix` gives the error number of a failure: its name,
/// a colon and its description (such as `EINVAL: Invalid argument`).
pub uninterp spec fn errno_text(f: SignalFailure) -> Seq<char>;

/// `answer` is what the system answered to a `kill` of `signal` sent to
/// the process `pid`. Which answer comes depends on the system; this only
/// records which signal was sent to which process.
pub uninterp spec fn kill_answered(pid: i32, signal: KillSignal, answer: Result<(), SignalFailure>) -> bool;

/// `answer` is what the system answered to a `killpg` of `signal` sent to
/// the process group `pgid`. Which answer comes depends on the system; this
/// only records which signal was sent to which group.
pub uninterp spec fn killpg_answered(pgid: i32, signal: KillSignal, answer: Result<(), SignalFailure>) -> bool;

/// Sends `signal` to the process `pid` with `nix::sys::signal::kill`, and
/// gives the system's answer to that call: `ESRCH` and `EPERM` are told apart
/// from other error numbers. Which answer comes depends on the system, so no
/// more is promised of it than that it answers this signal to this process.
#[verifier::external_body]
pub(crate) fn kill(pid: i32, signal: KillSignal) -> (r: Result<(), SignalFailure>)
    ensures
        kill_answered(pid, signal, r),
{
    let sig = match signal {
        KillSignal::Interrupt => Signal::SIGINT,
        KillSignal::Terminate => Signal::SIGTERM,
        KillSignal::Kill => Signal::SIGKILL,
        KillSignal::Continue => Signal::SIGCONT,
        KillSignal::Stop => Signal::SIGSTOP,
    };
    match nix::sys::signal::kill(nix::unistd::Pid::from_raw(pid), sig) {
        Ok(()) => Ok(()),
        Err(Errno::ESRCH) => Err(SignalFailure::NoSuchProcess),
        Err(Errno::EPERM) => Err(SignalFailure::PermissionDenied),
        Err(e) => Err(SignalFailure::Other(e as i32)),
    }
}

/// Sends `signal` to the process group `pgid` with
/// `nix::sys::signal::killpg`, and gives the system's answer to that call:
/// `ESRCH` and `EPERM` are told apart from other error numbers. Which answer
/// comes depends on the system, so no more is promised of it than that it
/// answers this signal to this group.
#[verifier::external_body]
pub(crate) fn killpg(pgid: i32, signal: KillSignal) -> (r: Result<(), SignalFailure>)
    ensures
        killpg_answered(pgid, signal, r),
{
    let sig = match signal {
        KillSignal::Interrupt => Signal::SIGINT,
        KillSignal::Terminate => Signal::SIGTERM,
        KillSignal::Kill => Signal::SIGKILL,
        KillSignal::Continue => Signal::SIGCONT,
        KillSignal::Stop => Signal::SIGSTOP,
    };
    match nix::sys::signal::killpg(nix::unistd::Pid::from_raw(pgid), sig) {
        Ok(()) => Ok(()),
        Err(Errno::ESRCH) => Err(SignalFailure::NoSuchProcess),
        Err(Errno::EPERM) => Err(SignalFailure::PermissionDenied),
        Err(e) => Err(SignalFailure::Other(e as i32)),
    }
}

/// The display text of a failure's error number, from the `Display` impl of
/// `nix::errno::Errno`: a function of the error number alone.
#[verifier::external_body]
pub(crate) fn failure_text(f: SignalFailure) -> (s: String)
    ensures
        s@ == errno_text(f),
{
    let e = match f {
        SignalFailure::NoSuchProcess => Errno::ESRCH,
        SignalFailure::PermissionDenied => Errno::EPERM,
        SignalFailure::Other(code) => Errno::from_raw(code),
    };
    e.to_string()
}

} // verus!
