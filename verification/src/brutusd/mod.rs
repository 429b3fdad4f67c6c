//! The second server crate, `brutusd`: the runtime directory, the pid file,
//! the command pipe and the server's command loop.

pub mod command;
pub mod pid;
pub mod runtime;
pub mod util;
