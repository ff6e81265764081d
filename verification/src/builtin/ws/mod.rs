//! Web sockets.

pub mod handshake;
pub mod message;
pub mod session;
pub mod upgrade;
