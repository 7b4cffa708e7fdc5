//! Pausing a process group.
use vstd::prelude::*;
use crate::tasks::process::action::SignalAction;
use crate::tasks::process::group::action::group_signalled;
use crate::tasks::process::group::error::{signal_failed_view, ProcessGroupError};
use crate::tasks::process::process_group::ProcessGroup;

verus! {

impl ProcessGroup {
    /// Pauses every process in the group: sends `SIGSTOP` to the group
    /// and reports the system's answer. A group that no longer exists counts
    /// as done; without a group id nothing is sent and "No process group ID
    /// available" is reported.
    pub fn pause_group(&self) -> (r: Result<(), ProcessGroupError>)
        ensures
            self.process_group_id is None ==> signal_failed_view(r) == Some(
                Err::<(), Seq<char>>("No process group ID available"@),
            ),
            self.process_group_id matches Some(g) ==> group_signalled(SignalAction::Pause, g, r),
    {
        self.signal_group(SignalAction::Pause)
    }
}

} // verus!
