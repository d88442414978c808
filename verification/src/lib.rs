//! A debugger front end for the Debug Adapter Protocol: the data model,
//! wire framing, command parsing and session bookkeeping, with their
//! contracts proved.

pub mod cli;
pub mod commands;
pub mod common;
pub mod daemon;
pub mod dap;
pub mod ipc;
pub mod json;
pub mod mock_adapter;
pub mod number;
pub mod setup;
pub mod testing;
pub mod text;
pub mod tutorial;
