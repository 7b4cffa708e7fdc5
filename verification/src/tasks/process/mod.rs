//! Process control: signalling single processes and process groups.
pub mod action;
pub mod child;
pub mod control;
pub mod group;
pub mod os;
pub mod process_group;
