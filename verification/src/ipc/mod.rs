//! Messages between the command line client and the daemon, and their
//! framing on the local socket.

pub mod client;
pub mod protocol;
pub mod transport;
