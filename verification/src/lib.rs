//! Verified core of a client for a remote key-value store spoken to over a
//! single persistent TCP connection with a length-prefixed text protocol.
//!
//! The modules here hold everything that decides or computes: framing bytes
//! on the wire, building command strings, interpreting responses, parsing
//! endpoint addresses, and the connection's state machine.  The surrounding
//! (unverified) application code only moves bytes between these functions and
//! the socket.

pub mod bytes;
pub mod command;
pub mod decimal;
pub mod endpoint;
pub mod errors;
pub mod response;
pub mod session;
pub mod wire;
