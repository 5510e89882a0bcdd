//! A minimal request/response protocol over a raw byte stream: a fixed
//! 16-byte frame header, a tagged response envelope, the per-connection
//! session state machine with its two-level read-deadline policy, and the
//! admission bookkeeping that bounds concurrent sessions.
//!
//! Everything here works on plain values; a driver around the crate owns the
//! sockets, performs the actions the session machine asks for, and feeds the
//! outcomes back in.

pub mod models;
pub mod server;
pub mod session;
pub mod utils;
