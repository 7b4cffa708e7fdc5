//! Task execution unit: configuration, validation, lifecycle events,
//! process control decisions and the flat wire records of all task types.
pub mod flatbuffers;
pub mod tasks;
pub mod text;
