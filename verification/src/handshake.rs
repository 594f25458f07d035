//! The handshake of an MQTT 5.0 connection: from the first frame to the
//! session, or to the refusal.
//!
//! The engine decides; the caller reads, asks the application, and writes.
//! [`handshake`] starts with the inbound limit to configure. The first frame
//! goes to [`ReadConnect::on_frame`], which yields the envelope for the
//! application's authenticator and the limits of the peer. What the
//! authenticator returns goes to [`Negotiation::on_ack`], which yields the
//! CONNACK to write. [`Accepted::on_written`] then yields the session.
use crate::error::{MqttError, ProtocolError};
use crate::server::Limits;
use crate::session::Session;
use crate::shared::{MqttShared, MqttSinkPool, SharedView};
use crate::sink::MqttSink;
use crate::types::{Connect, ConnectAck, Packet, QoS};
use ntex::framed::State;
use vstd::prelude::*;

verus! {

/// The receive maximum of a peer that announces none.
pub const DEFAULT_RECEIVE_MAX: u16 = 16;

/// What an error reports as expected in place of a first packet that is not
/// CONNECT.
pub open spec fn expected_connect() -> &'static str {
    "MQTT-3.1.0-1: Expected CONNECT packet"
}

/// The envelope that the application's authenticator receives: the CONNECT
/// packet, the shared state of the connection, and the limits that the
/// server is configured with.
pub struct Handshake {
    connect: Connect,
    shared: MqttShared,
    max_size: u32,
    max_receive: u16,
    max_topic_alias: u16,
}

/// What the application's authenticator returns.
pub struct HandshakeAck<St> {
    /// The state of the application for the connection; `None` refuses it.
    pub session: Option<St>,
    /// The CONNACK to answer with, before the server's overrides.
    pub packet: ConnectAck,
    /// The keep-alive interval in seconds that the server is willing to
    /// grant.
    pub keepalive: u16,
    /// High watermark of the read buffer in bytes.
    pub read_hw: u16,
    /// High watermark of the write buffer in bytes.
    pub write_hw: u16,
    /// Low watermark of both buffers in bytes.
    pub lw: u16,
    /// The shared state of the connection.
    pub shared: MqttShared,
}

impl Handshake {
    /// The CONNECT packet.
    pub closed spec fn spec_packet(&self) -> Connect {
        self.connect
    }

    /// The shared state of the connection.
    pub closed spec fn shared(&self) -> MqttShared {
        self.shared
    }

    /// The limits that the server is configured with: the largest inbound
    /// packet, how many publishes it handles at once, and the highest topic
    /// alias.
    pub closed spec fn server_limits(&self) -> (u32, u16, u16) {
        (self.max_size, self.max_receive, self.max_topic_alias)
    }

    /// The shared state is well formed.
    pub open spec fn wf(&self) -> bool {
        self.shared().wf()
    }

    /// The CONNACK that announces the limits `limits` of the server and
    /// carries the reason code `reason_code`.
    pub open spec fn announce(limits: (u32, u16, u16), reason_code: u8) -> ConnectAck {
        ConnectAck {
            session_present: false,
            reason_code,
            server_keepalive_sec: None,
            receive_max: if limits.1 == 0 {
                None
            } else {
                Some(limits.1)
            },
            max_qos: None,
            max_packet_size: if limits.0 == 0 {
                None
            } else {
                Some(limits.0)
            },
            topic_alias_max: limits.2,
        }
    }

    /// The CONNECT packet.
    pub fn packet(&self) -> (connect: &Connect)
        ensures
            *connect == self.spec_packet(),
    {
        &self.connect
    }

    /// Accepts the connection with `st` as the state of the application.
    /// The CONNACK announces the limits of the server; the keep-alive is 30
    /// seconds and the buffers hold 4096 bytes, with a low watermark of 256.
    pub fn ack<St>(self, st: St) -> (ack: HandshakeAck<St>)
        ensures
            ack.session == Some(st),
            ack.packet == Self::announce(self.server_limits(), 0),
            ack.keepalive == 30,
            ack.read_hw == 4096,
            ack.write_hw == 4096,
            ack.lw == 256,
            ack.shared == self.shared(),
    {
        let packet = Self::build(self.max_size, self.max_receive, self.max_topic_alias, 0);
        HandshakeAck {
            session: Some(st),
            packet,
            keepalive: 30,
            read_hw: 4096,
            write_hw: 4096,
            lw: 256,
            shared: self.shared,
        }
    }

    /// Refuses the connection with the reason code `reason_code`.
    pub fn failed<St>(self, reason_code: u8) -> (ack: HandshakeAck<St>)
        ensures
            ack.session == None::<St>,
            ack.packet == Self::announce(self.server_limits(), reason_code),
            ack.keepalive == 30,
            ack.read_hw == 4096,
            ack.write_hw == 4096,
            ack.lw == 256,
            ack.shared == self.shared(),
    {
        let packet = Self::build(
            self.max_size,
            self.max_receive,
            self.max_topic_alias,
            reason_code,
        );
        HandshakeAck {
            session: None,
            packet,
            keepalive: 30,
            read_hw: 4096,
            write_hw: 4096,
            lw: 256,
            shared: self.shared,
        }
    }

    fn build(max_size: u32, max_receive: u16, max_topic_alias: u16, reason_code: u8) -> (packet:
        ConnectAck)
        ensures
            packet == Self::announce((max_size, max_receive, max_topic_alias), reason_code),
    {
        ConnectAck {
            session_present: false,
            reason_code,
            server_keepalive_sec: None,
            receive_max: if max_receive == 0 {
                None
            } else {
                Some(max_receive)
            },
            max_qos: None,
            max_packet_size: if max_size == 0 {
                None
            } else {
                Some(max_size)
            },
            topic_alias_max: max_topic_alias,
        }
    }
}

impl<St> HandshakeAck<St> {
    /// The shared state is well formed.
    pub open spec fn wf(&self) -> bool {
        self.shared.wf()
    }
}

/// A handshake that waits for the first frame.
pub struct ReadConnect {
    state: State,
    pool: MqttSinkPool,
    limits: Limits,
}

/// Starts the handshake of a connection on the transport `state`, for a
/// server with the knobs `limits`. The codec is to refuse inbound packets
/// above [`ReadConnect::max_inbound`] before the first frame is read.
pub fn handshake(state: State, pool: MqttSinkPool, limits: Limits) -> (start: ReadConnect)
    ensures
        start.limits() == limits,
        start.transport() == state,
{
    ReadConnect { state, pool, limits }
}

impl ReadConnect {
    /// The knobs of the server.
    pub closed spec fn limits(&self) -> Limits {
        self.limits
    }

    /// The transport of the connection.
    pub closed spec fn transport(&self) -> State {
        self.state
    }

    /// The largest inbound packet that the codec is to accept at first;
    /// zero for no limit.
    pub fn max_inbound(&self) -> (size: u32)
        ensures
            size == self.limits().max_size,
    {
        self.limits.max_size
    }

    /// Takes the first frame: what the read yielded, where `Ok(None)` is
    /// the end of the stream.
    ///
    /// A CONNECT packet lets the handshake go on. The receive maximum that
    /// it announces, or 16 if it announces none, is the credit of the
    /// connection, and the largest packet that it accepts is the limit for
    /// outbound packets. The end of the stream fails with `Disconnected`, a
    /// failed read with its protocol error, and any other packet as
    /// unexpected.
    pub fn on_frame<E>(self, frame: Result<Option<Packet>, ProtocolError>) -> (next: Result<
        (Handshake, Negotiation),
        MqttError<E>,
    >)
        ensures
            match frame {
                Ok(Some(Packet::Connect(connect))) => {
                    &&& next matches Ok((envelope, negotiation))
                    &&& envelope.wf()
                    &&& envelope.spec_packet() == connect
                    &&& envelope.shared()@ == SharedView::new(
                        match connect.receive_max {
                            Some(max) => max as nat,
                            None => DEFAULT_RECEIVE_MAX as nat,
                        },
                    )
                    &&& envelope.server_limits() == (
                        self.limits().max_size,
                        self.limits().max_receive,
                        self.limits().max_topic_alias,
                    )
                    &&& negotiation.max_outbound == connect.max_packet_size
                    &&& negotiation.keep_alive == connect.keep_alive
                    &&& negotiation.max_qos == self.limits().max_qos
                },
                Ok(Some(other)) => next == Err::<(Handshake, Negotiation), MqttError<E>>(
                    MqttError::Protocol(
                        ProtocolError::Unexpected(other.spec_packet_type(), expected_connect()),
                    ),
                ),
                Ok(None) => next == Err::<(Handshake, Negotiation), MqttError<E>>(
                    MqttError::Disconnected,
                ),
                Err(e) => next == Err::<(Handshake, Negotiation), MqttError<E>>(
                    MqttError::Protocol(e),
                ),
            },
    {
        match frame {
            Ok(Some(Packet::Connect(connect))) => {
                let cap = match connect.receive_max {
                    Some(max) => max,
                    None => DEFAULT_RECEIVE_MAX,
                };
                let negotiation = Negotiation {
                    max_outbound: connect.max_packet_size,
                    keep_alive: connect.keep_alive,
                    max_qos: self.limits.max_qos,
                };
                let envelope = Handshake {
                    connect,
                    shared: MqttShared::new(self.state, self.pool, cap),
                    max_size: self.limits.max_size,
                    max_receive: self.limits.max_receive,
                    max_topic_alias: self.limits.max_topic_alias,
                };
                Ok((envelope, negotiation))
            },
            Ok(Some(other)) => Err(
                MqttError::Protocol(
                    ProtocolError::Unexpected(
                        other.packet_type(),
                        "MQTT-3.1.0-1: Expected CONNECT packet",
                    ),
                ),
            ),
            Ok(None) => Err(MqttError::Disconnected),
            Err(e) => Err(MqttError::Protocol(e)),
        }
    }
}

/// What the engine keeps of the CONNECT packet while the application
/// authenticates.
#[derive(Debug, PartialEq, Eq)]
pub struct Negotiation {
    /// The largest packet that the peer accepts: the codec is to refuse
    /// larger outbound packets from now on.
    pub max_outbound: Option<u32>,
    /// The keep-alive interval in seconds that the peer announced.
    pub keep_alive: u16,
    /// The highest QoS that the server is configured to announce.
    pub max_qos: Option<QoS>,
}

/// A connection that the application accepted, with its CONNACK to write.
pub struct Accepted<St> {
    /// The CONNACK with the server's overrides applied.
    pub packet: ConnectAck,
    /// The limit for inbound packets that the codec is to adopt, if the
    /// CONNACK announces one.
    pub max_inbound: Option<u32>,
    /// High watermark of the read buffer in bytes.
    pub read_hw: u16,
    /// High watermark of the write buffer in bytes.
    pub write_hw: u16,
    /// Low watermark of both buffers in bytes.
    pub lw: u16,
    /// The keep-alive interval in seconds that the dispatcher enforces.
    pub keepalive: u16,
    /// The state of the application for the connection.
    pub st: St,
    /// The shared state of the connection.
    pub shared: MqttShared,
    /// How many inbound publishes the session may handle at once; zero for
    /// no limit.
    pub max_receive: u16,
    /// The highest topic alias that the session accepts.
    pub max_topic_alias: u16,
}

/// A connection that the application refused.
#[derive(Debug, PartialEq, Eq)]
pub struct Rejected {
    /// The CONNACK to write and flush before the write side is shut down;
    /// `None` when the connection is closed already.
    pub packet: Option<ConnectAck>,
}

impl Negotiation {
    /// The CONNACK that goes on the wire for the CONNACK `packet` of the
    /// application: the highest QoS of the server stands in where the
    /// application names none, and the keep-alive `keepalive` that the
    /// server grants is imposed where the peer announced a longer one and
    /// the application imposes none.
    pub open spec fn overridden(&self, packet: ConnectAck, keepalive: u16) -> ConnectAck {
        ConnectAck {
            max_qos: if packet.max_qos is None {
                self.max_qos
            } else {
                packet.max_qos
            },
            server_keepalive_sec: if packet.server_keepalive_sec is None && self.keep_alive
                > keepalive {
                Some(keepalive)
            } else {
                packet.server_keepalive_sec
            },
            ..packet
        }
    }

    /// Takes what the authenticator returned, given whether the connection
    /// is open.
    ///
    /// With a session the CONNACK is completed by
    /// [`Negotiation::overridden`]; the session may handle as many
    /// publishes at once as the CONNACK announces, without limit if it
    /// announces none, and accepts topic aliases up to the one the CONNACK
    /// announces. Without a session the connection is refused.
    pub fn on_ack_when<St>(self, ack: HandshakeAck<St>, open: bool) -> (next: Result<
        Accepted<St>,
        Rejected,
    >)
        requires
            ack.wf(),
        ensures
            match ack.session {
                Some(st) => {
                    &&& next matches Ok(accepted)
                    &&& accepted.wf()
                    &&& accepted.packet == self.overridden(ack.packet, ack.keepalive)
                    &&& accepted.max_inbound == ack.packet.max_packet_size
                    &&& accepted.read_hw == ack.read_hw
                    &&& accepted.write_hw == ack.write_hw
                    &&& accepted.lw == ack.lw
                    &&& accepted.keepalive == ack.keepalive
                    &&& accepted.st == st
                    &&& accepted.shared == ack.shared
                    &&& accepted.max_receive == match ack.packet.receive_max {
                        Some(max) => max,
                        None => 0,
                    }
                    &&& accepted.max_topic_alias == ack.packet.topic_alias_max
                },
                None => next == Err::<Accepted<St>, Rejected>(
                    Rejected {
                        packet: if open {
                            Some(ack.packet)
                        } else {
                            None
                        },
                    },
                ),
            },
    {
        let HandshakeAck { session, packet, keepalive, read_hw, write_hw, lw, shared } = ack;
        match session {
            Some(st) => {
                let max_topic_alias = packet.topic_alias_max;
                let max_receive = match packet.receive_max {
                    Some(max) => max,
                    None => 0,
                };
                let max_inbound = packet.max_packet_size;
                let max_qos = match packet.max_qos {
                    Some(qos) => Some(qos),
                    None => self.max_qos,
                };
                let server_keepalive_sec = match packet.server_keepalive_sec {
                    Some(secs) => Some(secs),
                    None => if self.keep_alive > keepalive {
                        Some(keepalive)
                    } else {
                        None
                    },
                };
                Ok(
                    Accepted {
                        packet: ConnectAck { max_qos, server_keepalive_sec, ..packet },
                        max_inbound,
                        read_hw,
                        write_hw,
                        lw,
                        keepalive,
                        st,
                        shared,
                        max_receive,
                        max_topic_alias,
                    },
                )
            },
            None => Err(
                Rejected {
                    packet: if open {
                        Some(packet)
                    } else {
                        None
                    },
                },
            ),
        }
    }

    /// Takes what the authenticator returned, as
    /// [`Negotiation::on_ack_when`] does, after asking the transport whether
    /// the connection is open.
    pub fn on_ack<St>(self, ack: HandshakeAck<St>) -> (next: Result<Accepted<St>, Rejected>)
        requires
            ack.wf(),
        ensures
            match ack.session {
                Some(st) => {
                    &&& next matches Ok(accepted)
                    &&& accepted.wf()
                    &&& accepted.packet == self.overridden(ack.packet, ack.keepalive)
                    &&& accepted.max_inbound == ack.packet.max_packet_size
                    &&& accepted.read_hw == ack.read_hw
                    &&& accepted.write_hw == ack.write_hw
                    &&& accepted.lw == ack.lw
                    &&& accepted.keepalive == ack.keepalive
                    &&& accepted.st == st
                    &&& accepted.shared == ack.shared
                    &&& accepted.max_receive == match ack.packet.receive_max {
                        Some(max) => max,
                        None => 0,
                    }
                    &&& accepted.max_topic_alias == ack.packet.topic_alias_max
                },
                None => {
                    &&& next matches Err(rejected)
                    &&& rejected.packet matches Some(packet) ==> packet == ack.packet
                },
            },
    {
        let open = ack.shared.is_open();
        self.on_ack_when(ack, open)
    }
}

impl<St> Accepted<St> {
    /// The shared state is well formed.
    pub open spec fn wf(&self) -> bool {
        self.shared.wf()
    }

    /// Takes the outcome of writing the CONNACK. After a successful write
    /// the connection has its session, and the dispatcher is to enforce the
    /// keep-alive interval that comes with it. A failed write fails the
    /// handshake with `Disconnected`.
    pub fn on_written<E>(self, written: bool) -> (next: Result<(Session<St>, u16), MqttError<E>>)
        requires
            self.wf(),
        ensures
            match next {
                Ok((session, keepalive)) => {
                    &&& written
                    &&& session.spec_state() == self.st
                    &&& session.spec_sink()@ == self.shared@
                    &&& session.spec_sink().wf()
                    &&& session.spec_max_receive() == self.max_receive
                    &&& session.spec_max_topic_alias() == self.max_topic_alias
                    &&& keepalive == self.keepalive
                },
                Err(e) => !written && e == MqttError::<E>::Disconnected,
            },
    {
        if written {
            let sink = MqttSink::new(self.shared);
            Ok(
                (
                    Session::new_v5(self.st, sink, self.max_receive, self.max_topic_alias),
                    self.keepalive,
                ),
            )
        } else {
            Err(MqttError::Disconnected)
        }
    }
}

impl Rejected {
    /// What a refused handshake fails with, once the CONNACK was written
    /// and the write side shut down.
    pub fn error<E>(&self) -> (e: MqttError<E>)
        ensures
            e == MqttError::<E>::Disconnected,
    {
        MqttError::Disconnected
    }
}

} // verus!
