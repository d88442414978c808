//! Debug adapter setup: which debuggers exist, which a project needs, and
//! how each is installed.

pub mod adapters;
pub mod detector;
pub mod install;
pub mod installer;
pub mod registry;
pub mod probe;
