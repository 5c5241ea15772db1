//! Protocol constants of the channel-request subprotocol.

use vstd::prelude::*;

verus! {

/// Message type tag of an SSH channel request.
pub const CHANNEL_REQUEST: u8 = 98;

/// Request name asking the remote side to allocate a pseudo-terminal.
pub const PTY_REQ: &'static str = "pty-req";

/// Terminal type handed to the pseudo-terminal request.
pub const XTERM_VAR: &'static str = "xterm";

/// Request name asking the remote side to start a shell.
pub const SHELL: &'static str = "shell";

} // verus!
