//! The vocabulary of control packets that the engine consumes and produces.
//!
//! The wire codec turns bytes into these values and back; nothing here
//! parses or serialises.
use ntex::util::Bytes;
use vstd::prelude::*;

verus! {

/// First byte of a CONNECT packet.
pub const CONNECT: u8 = 0x10;

/// First byte of a CONNACK packet.
pub const CONNACK: u8 = 0x20;

/// First byte of a PUBLISH packet with all flags clear.
pub const PUBLISH_START: u8 = 0x30;

/// First byte of a PUBACK packet.
pub const PUBACK: u8 = 0x40;

/// First byte of a PUBREC packet.
pub const PUBREC: u8 = 0x50;

/// First byte of a PUBREL packet.
pub const PUBREL: u8 = 0x62;

/// First byte of a PUBCOMP packet.
pub const PUBCOMP: u8 = 0x70;

/// First byte of a SUBSCRIBE packet.
pub const SUBSCRIBE: u8 = 0x82;

/// First byte of a SUBACK packet.
pub const SUBACK: u8 = 0x90;

/// First byte of an UNSUBSCRIBE packet.
pub const UNSUBSCRIBE: u8 = 0xA2;

/// First byte of an UNSUBACK packet.
pub const UNSUBACK: u8 = 0xB0;

/// First byte of a PINGREQ packet.
pub const PINGREQ: u8 = 0xC0;

/// First byte of a PINGRESP packet.
pub const PINGRESP: u8 = 0xD0;

/// First byte of a DISCONNECT packet.
pub const DISCONNECT: u8 = 0xE0;

/// Delivery guarantee of a publish.
#[derive(Clone, Copy, Debug, PartialEq, Eq, Structural)]
pub enum QoS {
    /// At most once: no acknowledgement.
    AtMostOnce,
    /// At least once: acknowledged by PUBACK.
    AtLeastOnce,
    /// Exactly once: acknowledged by PUBREC, PUBREL and PUBCOMP.
    ExactlyOnce,
}

/// Per-filter outcome that a SUBACK carries.
#[derive(Clone, Copy, Debug, PartialEq, Eq, Structural)]
pub enum SubscribeReturnCode {
    /// The subscription was accepted with the given maximum QoS.
    Success(QoS),
    /// The subscription was refused.
    Failure,
}

/// A PUBLISH packet.
#[derive(Debug, PartialEq, Eq)]
pub struct Publish {
    /// The packet may be a re-delivery of an earlier attempt.
    pub dup: bool,
    /// The server should keep the message for future subscribers.
    pub retain: bool,
    /// Delivery guarantee.
    pub qos: QoS,
    /// Topic the message is published to.
    pub topic: String,
    /// Packet identifier; present and nonzero when `qos` is above
    /// [`QoS::AtMostOnce`].
    pub packet_id: Option<u16>,
    /// Application message.
    pub payload: Bytes,
}

/// What the engine reads of a CONNECT packet.
#[derive(Debug, PartialEq, Eq)]
pub struct Connect {
    /// The client asks for a fresh session.
    pub clean_start: bool,
    /// Keep-alive interval that the client announces, in seconds.
    pub keep_alive: u16,
    /// Client identifier.
    pub client_id: String,
    /// Receive maximum that the client announces; nonzero when present.
    pub receive_max: Option<u16>,
    /// Largest packet the client accepts; nonzero when present.
    pub max_packet_size: Option<u32>,
    /// Highest topic alias the client accepts.
    pub topic_alias_max: u16,
}

/// What the engine reads and sets of a CONNACK packet.
#[derive(Clone, Copy, Debug, PartialEq, Eq)]
pub struct ConnectAck {
    /// The server resumes an earlier session.
    pub session_present: bool,
    /// Reason code; zero means success.
    pub reason_code: u8,
    /// Keep-alive interval that the server imposes, in seconds.
    pub server_keepalive_sec: Option<u16>,
    /// Receive maximum that the server announces; nonzero when present.
    pub receive_max: Option<u16>,
    /// Highest QoS the server supports.
    pub max_qos: Option<QoS>,
    /// Largest packet the server accepts.
    pub max_packet_size: Option<u32>,
    /// Highest topic alias the server accepts.
    pub topic_alias_max: u16,
}

/// A control packet, as the codec hands it over.
#[allow(inconsistent_fields)]
#[derive(Debug, PartialEq, Eq)]
pub enum Packet {
    /// Client request to connect.
    Connect(Connect),
    /// Reply to a connect request.
    ConnectAck(ConnectAck),
    /// Application message.
    Publish(Publish),
    /// Acknowledgement of a QoS 1 publish.
    PublishAck { packet_id: u16 },
    /// First acknowledgement of a QoS 2 publish.
    PublishReceived { packet_id: u16 },
    /// Release of a QoS 2 publish.
    PublishRelease { packet_id: u16 },
    /// Last acknowledgement of a QoS 2 publish.
    PublishComplete { packet_id: u16 },
    /// Request to subscribe to topic filters.
    Subscribe { packet_id: u16, topic_filters: Vec<(String, QoS)> },
    /// Acknowledgement of a subscribe request.
    SubscribeAck { packet_id: u16, status: Vec<SubscribeReturnCode> },
    /// Request to unsubscribe from topic filters.
    Unsubscribe { packet_id: u16, topic_filters: Vec<String> },
    /// Acknowledgement of an unsubscribe request.
    UnsubscribeAck { packet_id: u16 },
    /// Keep-alive probe.
    PingRequest,
    /// Reply to a keep-alive probe.
    PingResponse,
    /// Notice that the sender closes the connection.
    Disconnect,
}

impl Packet {
    /// The first byte of the packet's fixed header, flags clear.
    pub open spec fn spec_packet_type(&self) -> u8 {
        match self {
            Packet::Connect(_) => CONNECT,
            Packet::ConnectAck(_) => CONNACK,
            Packet::Publish(_) => PUBLISH_START,
            Packet::PublishAck { .. } => PUBACK,
            Packet::PublishReceived { .. } => PUBREC,
            Packet::PublishRelease { .. } => PUBREL,
            Packet::PublishComplete { .. } => PUBCOMP,
            Packet::Subscribe { .. } => SUBSCRIBE,
            Packet::SubscribeAck { .. } => SUBACK,
            Packet::Unsubscribe { .. } => UNSUBSCRIBE,
            Packet::UnsubscribeAck { .. } => UNSUBACK,
            Packet::PingRequest => PINGREQ,
            Packet::PingResponse => PINGRESP,
            Packet::Disconnect => DISCONNECT,
        }
    }

    /// The first byte of the packet's fixed header, flags clear.
    #[verifier::when_used_as_spec(spec_packet_type)]
    pub fn packet_type(&self) -> (tp: u8)
        ensures
            tp == self.spec_packet_type(),
    {
        match self {
            Packet::Connect(_) => CONNECT,
            Packet::ConnectAck(_) => CONNACK,
            Packet::Publish(_) => PUBLISH_START,
            Packet::PublishAck { .. } => PUBACK,
            Packet::PublishReceived { .. } => PUBREC,
            Packet::PublishRelease { .. } => PUBREL,
            Packet::PublishComplete { .. } => PUBCOMP,
            Packet::Subscribe { .. } => SUBSCRIBE,
            Packet::SubscribeAck { .. } => SUBACK,
            Packet::Unsubscribe { .. } => UNSUBSCRIBE,
            Packet::UnsubscribeAck { .. } => UNSUBACK,
            Packet::PingRequest => PINGREQ,
            Packet::PingResponse => PINGRESP,
            Packet::Disconnect => DISCONNECT,
        }
    }
}

} // verus!
