//! Interrupting, pausing and terminating a whole process group.
use vstd::prelude::*;
use crate::tasks::process::action::{
    action_signal, action_signal_name, action_verb, kill_signal_for, SignalAction,
};
use crate::tasks::process::group::error::{signal_failed_view, ProcessGroupError};
use crate::tasks::process::os::{errno_text, failure_text, killpg, killpg_answered, SignalFailure};
use crate::tasks::process::process_group::ProcessGroup;
use crate::text::{int_text, push_int};

pub mod interrupt;
pub mod pause;
pub mod stop;

verus! {

/// The message reported for an action on process group `pgid`, given what
/// the system answered: a group that no longer exists counts as done.
pub open spec fn group_delivery_result(a: SignalAction, pgid: int, o: Result<(), SignalFailure>) -> Result<
    (),
    Seq<char>,
> {
    match o {
        Ok(()) => Ok(()),
        Err(SignalFailure::NoSuchProcess) => Ok(()),
        Err(SignalFailure::PermissionDenied) => Err(
            "Permission denied to "@ + action_verb(a) + " process group "@ + int_text(pgid),
        ),
        Err(f) => Err(
            "Failed to send "@ + action_signal_name(a) + " to process group "@ + int_text(pgid)
                + ": "@ + errno_text(f),
        ),
    }
}

/// An action on a group succeeds exactly when the system delivered its signal
/// or the group no longer exists.
pub proof fn group_delivery_result_law(a: SignalAction, pgid: int, o: Result<(), SignalFailure>)
    ensures
        group_delivery_result(a, pgid, o) is Ok <==> (o is Ok || o == Err::<(), SignalFailure>(
            SignalFailure::NoSuchProcess,
        )),
{
}

/// The outcome reported for an action on process group `pgid`, given what
/// the system answered to its signal.
pub fn group_delivery_outcome(action: SignalAction, pgid: i32, outcome: Result<(), SignalFailure>) -> (r:
    Result<(), ProcessGroupError>)
    ensures
        signal_failed_view(r) == Some(group_delivery_result(action, pgid as int, outcome)),
{
    proof {
        reveal_strlit("Permission denied to interrupt process group ");
        reveal_strlit("Permission denied to pause process group ");
        reveal_strlit("Permission denied to terminate process group ");
        reveal_strlit("Permission denied to ");
        reveal_strlit("interrupt");
        reveal_strlit("pause");
        reveal_strlit("terminate");
        reveal_strlit(" process group ");
        reveal_strlit("Failed to send SIGINT to process group ");
        reveal_strlit("Failed to send SIGSTOP to process group ");
        reveal_strlit("Failed to send SIGTERM to process group ");
        reveal_strlit("Failed to send ");
        reveal_strlit("SIGINT");
        reveal_strlit("SIGSTOP");
        reveal_strlit("SIGTERM");
        reveal_strlit(" to process group ");
    }
    match outcome {
        Ok(()) => Ok(()),
        Err(SignalFailure::NoSuchProcess) => Ok(()),
        Err(SignalFailure::PermissionDenied) => {
            let mut m = match action {
                SignalAction::Interrupt => "Permission denied to interrupt process group ".to_string(),
                SignalAction::Pause => "Permission denied to pause process group ".to_string(),
                SignalAction::Terminate => "Permission denied to terminate process group ".to_string(),
            };
            assert(m@ == "Permission denied to "@ + action_verb(action) + " process group "@);
            push_int(&mut m, pgid as i64);
            Err(ProcessGroupError::SignalFailed(m))
        },
        Err(f) => {
            let mut m = match action {
                SignalAction::Interrupt => "Failed to send SIGINT to process group ".to_string(),
                SignalAction::Pause => "Failed to send SIGSTOP to process group ".to_string(),
                SignalAction::Terminate => "Failed to send SIGTERM to process group ".to_string(),
            };
            assert(m@ == "Failed to send "@ + action_signal_name(action) + " to process group "@);
            push_int(&mut m, pgid as i64);
            m.append(": ");
            let text = failure_text(f);
            m.append(text.as_str());
            Err(ProcessGroupError::SignalFailed(m))
        },
    }
}

/// `r` is the outcome reported for an action on process group `pgid`: the
/// action's signal was sent to the group, and `r` reports the system's answer.
pub open spec fn group_signalled(action: SignalAction, pgid: i32, r: Result<(), ProcessGroupError>) -> bool {
    exists|o: Result<(), SignalFailure>|
        #[trigger] killpg_answered(pgid, action_signal(action), o) && Some(
            group_delivery_result(action, pgid as int, o),
        ) == signal_failed_view(r)
}

impl ProcessGroup {
    /// Sends an action's signal to the group and reports the system's
    /// answer. Without a group id nothing is sent and "No process group ID
    /// available" is reported.
    pub fn signal_group(&self, action: SignalAction) -> (r: Result<(), ProcessGroupError>)
        ensures
            self.process_group_id is None ==> signal_failed_view(r) == Some(
                Err::<(), Seq<char>>("No process group ID available"@),
            ),
            self.process_group_id matches Some(g) ==> group_signalled(action, g, r),
    {
        match self.process_group_id {
            Some(pgid) => {
                let outcome = killpg(pgid, kill_signal_for(action));
                let r = group_delivery_outcome(action, pgid, outcome);
                assert(killpg_answered(pgid, action_signal(action), outcome));
                r
            },
            None => Err(ProcessGroupError::SignalFailed("No process group ID available".to_string())),
        }
    }
}

} // verus!
