//! Interactive-session layer of an SSH client: a shell channel multiplexed
//! over an established transport, plus the synchronized registries that hold
//! the session-wide transport connection, configuration and encryption state.

pub mod channel;
pub mod channel_shell;
pub mod client;
pub mod config;
pub mod constant;
pub mod encryption;
pub mod error;
pub mod global;
pub mod model;
pub mod terminal;
pub mod util;
