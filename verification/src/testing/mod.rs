//! Scenario-driven testing of debug sessions.

pub mod config;
pub mod runner;
pub mod steps;
