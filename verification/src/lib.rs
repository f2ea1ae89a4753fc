//! The user-management daemon's library: the shared user and message types,
//! the lookups and password checks that the daemon answers requests with,
//! the replies that a client decodes, and the text that the users file
//! grows by when a user is added.

pub mod client;
pub mod commands;
pub mod config;
pub mod laws;
pub mod manager;
pub mod password;
pub mod text;
pub mod types;
pub mod user;
pub mod users;

pub use types::{Command, Error, Response, User};
