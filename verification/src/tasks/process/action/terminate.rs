//! Terminating a process given as a signed process id.
use vstd::prelude::*;
use crate::tasks::process::action::{
    signal_pid, signalled, ProcessError, ProcessErrorKind, SignalAction,
};
use crate::text::{int_text, push_int};

verus! {

/// Terminates the process `pid` with `SIGTERM`. The id is read as an `i32`
/// (ids above `i32::MAX` wrap to negative numbers); an id that is not
/// positive then is refused as invalid input, naming the id as read.
/// Otherwise `SIGTERM` is sent to that process and the outcome reports the
/// system's answer.
pub fn terminate_process(pid: u32) -> (r: Result<(), ProcessError>)
    ensures
        (pid as i32) <= 0 ==> (r matches Err(e) && e@ == (
            ProcessErrorKind::InvalidInput,
            "Invalid PID: "@ + int_text((pid as i32) as int),
        )),
        (pid as i32) > 0 ==> signalled(SignalAction::Terminate, pid as i32, r),
{
    let p = pid as i32;
    if p <= 0 {
        let mut message = "Invalid PID: ".to_string();
        push_int(&mut message, p as i64);
        return Err(ProcessError { kind: ProcessErrorKind::InvalidInput, message });
    }
    signal_pid(SignalAction::Terminate, p)
}

} // verus!
