//! The first server crate: terminal sizes, the pid file protocol and the
//! double-fork daemon start-up.

pub mod common;
pub mod daemon;
pub mod pid;
