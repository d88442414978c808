//! The Debug Adapter Protocol: wire framing and message types.

pub mod codec;
pub mod types;
