//! Terminating a child process by id.
use vstd::prelude::*;
use crate::tasks::process::action::{
    signalled, ProcessError, ProcessErrorKind, SignalAction,
};
use crate::text::int_text;

verus! {

/// Terminates the child process `pid` with `SIGTERM`; the id is read as an
/// `i32`, and one that is not positive then is refused as invalid input.
pub fn terminate_process(pid: u32) -> (r: Result<(), ProcessError>)
    ensures
        (pid as i32) <= 0 ==> (r matches Err(e) && e@ == (
            ProcessErrorKind::InvalidInput,
            "Invalid PID: "@ + int_text((pid as i32) as int),
        )),
        (pid as i32) > 0 ==> signalled(SignalAction::Terminate, pid as i32, r),
{
    crate::tasks::process::action::terminate::terminate_process(pid)
}

} // verus!
