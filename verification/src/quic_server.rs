//! Decisions of the QUIC Relay server.
//!
//! Each submodule covers one conversation. Its functions take what the transport or a protected
//! store answered and say what has to be done next; the transport loop performs it.

pub mod bootstrap;
pub mod connection;
pub mod control;
pub mod enrollment;
pub mod hde3;
pub mod server;
pub mod stream;
pub mod trust;

pub use server::QuicRelayServer;
