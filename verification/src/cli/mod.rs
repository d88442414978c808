//! The command line: what it sends to the daemon and what it prints.

pub mod format;
