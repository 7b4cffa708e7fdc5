//! Terminating a process, checking its id first.
use vstd::prelude::*;
use crate::tasks::process::action::{
    checked_signal, pid_check, signalled, ProcessError, ProcessErrorKind, SignalAction,
};

verus! {

/// Terminates the process `pid` with `SIGTERM`, letting it clean up.
///
/// A process id of 0, or one that does not fit in an `i32`, is refused as
/// invalid input before any signal is sent. Otherwise `SIGTERM` is sent to
/// the process `pid`, and the outcome reports the system's answer: success,
/// the process does not exist, permission was denied, or another error.
pub fn terminate_process(pid: u32) -> (r: Result<(), ProcessError>)
    ensures
        match pid_check(pid) {
            Some(m) => r matches Err(e) && e@ == (ProcessErrorKind::InvalidInput, m),
            None => signalled(SignalAction::Terminate, pid as i32, r),
        },
{
    checked_signal(SignalAction::Terminate, pid)
}

} // verus!
