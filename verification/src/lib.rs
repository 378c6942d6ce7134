//! A small daemon library: obtain a listening Unix socket (bound to a path or
//! inherited from a supervisor), register it with a display server's
//! security-context extension under a `{sandbox engine, app id, instance id}`
//! identity, and hold the tagged socket open until a shutdown signal arrives.
//!
//! The modules here carry the decision logic with its contracts; the binary
//! around them performs the actual socket, display-server and signal I/O and
//! follows the decisions made here.

pub mod descriptor;
pub mod errors;
pub mod handshake;
pub mod identity;
pub mod mode;
pub mod name;
pub mod signals;
pub mod source;
