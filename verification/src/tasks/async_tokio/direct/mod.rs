//! Running a task directly: the command to spawn, the steps of starting it
//! and the decisions of the watchers that follow it.
pub mod command;
pub mod start;
pub mod watchers;
