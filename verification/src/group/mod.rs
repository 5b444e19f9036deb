//! The group domain: its command, its events and its read model.

pub mod command;
pub mod event;
pub mod query;
