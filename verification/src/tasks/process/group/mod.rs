//! Signalling a whole process group.
pub mod action;
pub mod error;
