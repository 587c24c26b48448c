//! The core of a streaming endpoint: settings resolved from the environment,
//! and the lifecycle of one connection as a state machine that an I/O loop
//! drives.

pub mod address;
pub mod config;
pub mod decimal;
pub mod webserver;
