//! Message protocol and connection-handling core for a small
//! container-management daemon and its command-line client.
//!
//! The two processes talk over a local stream socket in a binary,
//! length-prefixed request/response protocol: every message is a fixed-size
//! header (message type, command, body length) followed by exactly
//! `body length` bytes of command-specific payload.  This crate holds the
//! wire format and codec, the exact-length transport bookkeeping, the
//! per-connection state machine, the client-side message builder, and the
//! configuration plumbing; the surrounding binary supplies the actual
//! socket, file and terminal I/O.

pub mod cli;
pub mod cli_config;
pub mod config;
pub mod daemon_config;
pub mod error;
pub mod handler;
pub mod protocol;
pub mod requests;
pub mod transport;
pub mod utils;