//! Errors that the engine reports.
use vstd::prelude::*;

verus! {

/// Why the codec could not serialise a packet.
#[derive(Clone, Copy, Debug, PartialEq, Eq, Structural)]
pub enum EncodeError {
    /// The packet exceeds the size the peer accepts.
    InvalidLength,
    /// A field holds a value that cannot be written.
    MalformedPacket,
    /// A packet identifier is required and missing.
    PacketIdRequired,
    /// The protocol version is not supported.
    UnsupportedVersion,
}

/// Why the codec could not parse a frame.
#[derive(Clone, Copy, Debug, PartialEq, Eq, Structural)]
pub enum DecodeError {
    /// The protocol name or level is not supported.
    InvalidProtocol,
    /// The remaining length is not well formed.
    InvalidLength,
    /// A field holds a value that the protocol forbids.
    MalformedPacket,
    /// The packet type is not known.
    UnsupportedPacketType,
    /// The frame is larger than the inbound limit.
    MaxSizeExceeded,
    /// A string is not valid UTF-8.
    Utf8Error,
}

/// A violation of the protocol by the peer, or a failure of the transport.
/// Each one is fatal to the connection.
#[derive(Clone, Copy, Debug, PartialEq, Eq)]
pub enum ProtocolError {
    /// An inbound frame could not be parsed.
    Decode(DecodeError),
    /// A packet arrived that the state of the connection does not allow:
    /// the type that was received and what was expected in its place.
    Unexpected(u8, &'static str),
    /// An acknowledgement arrived out of order, or for nothing in flight.
    PacketIdMismatch,
    /// No frame arrived within one and a half keep-alive intervals.
    KeepAliveTimeout,
    /// The byte stream failed.
    Io,
}

/// Why a request that the application originated was not completed.
#[derive(Clone, Copy, Debug, PartialEq, Eq, Structural)]
pub enum SendPacketError {
    /// The packet could not be serialised.
    Encode(EncodeError),
    /// The packet identifier that was asked for awaits an acknowledgement.
    PacketIdInUse(u16),
    /// The connection is closed, or closed before the peer acknowledged.
    Disconnected,
}

/// Why a connection ended.
#[derive(Debug, PartialEq, Eq)]
pub enum MqttError<E> {
    /// A handler of the application failed.
    Service(E),
    /// The peer violated the protocol, or the transport failed.
    Protocol(ProtocolError),
    /// The handshake did not complete within its deadline.
    HandshakeTimeout,
    /// The peer went away.
    Disconnected,
}

} // verus!
