//! Task execution on the tokio runtime: the spawner's state, the decisions
//! taken while a task runs, and process groups.
pub mod direct;
pub mod handles;
pub mod process_group;
pub mod spawner;
