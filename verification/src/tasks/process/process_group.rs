//! Process groups: every process a task starts runs in one group, so that
//! signals reach its whole process tree.
use vstd::prelude::*;
pub use crate::tasks::process::group::error::ProcessGroupError;

verus! {

/// A process group, known by the id of its leader once a child is assigned.
#[derive(Debug)]
pub struct ProcessGroup {
    /// The group id: the id of the child that leads the group.
    pub process_group_id: Option<i32>,
}

impl ProcessGroup {
    /// A group with no process assigned yet.
    pub fn new() -> (g: Self)
        ensures
            g.process_group_id is None,
    {
        ProcessGroup { process_group_id: None }
    }

    /// Whether a process has been assigned, so that there is a group to signal.
    pub fn is_active(&self) -> (b: bool)
        ensures
            b == self.process_group_id is Some,
    {
        self.process_group_id.is_some()
    }

    /// Makes the child `child_id`, which leads its own session, the group:
    /// its id (read as an `i32`) becomes the group id.
    pub fn assign_child(&mut self, child_id: u32) -> (r: Result<(), ProcessGroupError>)
        ensures
            r is Ok,
            final(self).process_group_id == Some(child_id as i32),
    {
        self.process_group_id = Some(child_id as i32);
        Ok(())
    }
}

impl Default for ProcessGroup {
    fn default() -> (g: Self)
        ensures
            g.process_group_id is None,
    {
        ProcessGroup::new()
    }
}

} // verus!
