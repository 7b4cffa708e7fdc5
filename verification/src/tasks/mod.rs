//! Task configuration, validation, states, events and process control.
pub mod async_tokio;
pub mod config;
pub mod control;
pub mod error;
pub mod event;
pub mod process;
pub mod security;
pub mod signal;
pub mod state;
