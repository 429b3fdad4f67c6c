//! Verified core of the brutus terminal multiplexer: the pid wire codec, the
//! layout of the runtime directory, and the decisions taken by the server's
//! start-up protocol and command loop.

pub mod codec;
pub mod text;
pub mod io;
pub mod server;
pub mod brutusd;
pub mod utils;
pub mod pane;
