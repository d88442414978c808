//! The daemon: the session it keeps and how it answers commands.

pub mod session;
pub mod breakpoints;
pub mod handler;
pub mod actor;
pub mod server;
