//! Session-level protocol engine for MQTT 3.1.1 and 5.0 connections.
//!
//! The crate holds the decisions of a connection: the bookkeeping of requests
//! that await an acknowledgement, the credit that the peer's receive maximum
//! grants, the allocation of packet identifiers, the negotiation of limits
//! during the handshake and the routing of inbound packets. Reading and
//! writing the byte stream, and waiting on channels, is left to the caller.
use vstd::prelude::*;

pub mod control;
pub mod default;
pub mod dispatcher;
pub mod error;
pub mod handshake;
pub mod laws;
pub mod ntex_specs;
pub mod server;
pub mod session;
pub mod shared;
pub mod sink;
pub mod types;

pub use crate::error::MqttError;
pub use crate::server::MqttServer;
pub use crate::session::Session;
pub use crate::sink::MqttSink;

verus! {

/// Standard MQTT port for plain TCP connections.
pub const TCP_PORT: u16 = 1883;

/// Standard MQTT port for TLS connections.
pub const SSL_PORT: u16 = 8883;

} // verus!
