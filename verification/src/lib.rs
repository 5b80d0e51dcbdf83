//! Supervision of a single message-broker child process.
//!
//! The crate computes where the platform-specific broker executable lives and
//! tracks the outcome of launching it. Reading the process environment and
//! spawning the process are left to the host program, which hands the values
//! it obtained to the functions here.

pub mod env_resolve;
pub mod mosquitto;
pub mod command;
