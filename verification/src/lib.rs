//! Command construction for a single remembered remote host.
//!
//! The crate remembers one remote host and builds the argument vectors with
//! which the SSH client and the secure-copy client are started against it, so
//! that every invocation shares one multiplexed connection per host.

pub mod cli;
pub mod conn;
pub mod dirs;
pub mod errors;
pub mod path;
pub mod port;
pub mod process;
pub mod text;
