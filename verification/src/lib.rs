//! Wakes, maintains and shuts down remote machines: the decisions of one
//! session against one machine, as verified state machines over plain values.
//!
//! The caller opens connections, runs remote commands, sleeps and sends
//! packets; this library decides what is to be done next and proves that the
//! decisions keep the session's guarantees.

pub mod config;
pub mod connect;
pub mod guarantees;
pub mod maintenance;
pub mod monitor;
pub mod sample;
pub mod session;
pub mod wake;
