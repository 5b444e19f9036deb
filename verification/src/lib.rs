//! Group management for the cobase platform: domain naming of event streams,
//! the group command and its validation, the projection of group events,
//! error reporting and the replies sent to HTTP clients.

pub mod api_config;
pub mod bus;
pub mod error;
pub mod event;
pub mod group;
pub mod publisher;
pub mod response;
pub mod text;
pub mod worker_config;
