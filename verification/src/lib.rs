//! Typed commands for the Music Player Daemon protocol.
//!
//! A command value renders itself into the request line that the server
//! expects, and names at the type level the shape of the answer.

pub mod arguments;
pub mod commands;
pub mod raw;
pub mod state_changes;
pub mod values;
