//! Decisions of the watchers that follow a running task.
pub mod input;
pub mod output;
pub mod result;
pub mod wait;
