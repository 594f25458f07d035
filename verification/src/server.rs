//! The configuration of an MQTT 5.0 server and the handlers it runs.
use crate::default::{DefaultControlService, DefaultPublishService};
use crate::error::MqttError;
use crate::shared::MqttSinkPool;
use crate::types::QoS;
use ntex::util::timeout::TimeoutError;
use vstd::prelude::*;

verus! {

/// The knobs of a server.
#[derive(Clone, Copy, Debug, PartialEq, Eq)]
pub struct Limits {
    /// Largest inbound packet in bytes; zero for no limit.
    pub max_size: u32,
    /// How many inbound publishes may be handled at once.
    pub max_receive: u16,
    /// Highest QoS that the server announces, if it announces one.
    pub max_qos: Option<QoS>,
    /// Deadline for the whole handshake in milliseconds; zero for none.
    pub handshake_timeout: u16,
    /// Grace for an orderly close in milliseconds, after which the
    /// transport is closed by force; zero for none.
    pub disconnect_timeout: u16,
    /// Highest topic alias that the server accepts.
    pub max_topic_alias: u16,
}

impl Limits {
    /// The knobs of a server that was configured no further.
    pub open spec fn initial() -> Limits {
        Limits {
            max_size: 0,
            max_receive: 15,
            max_qos: None,
            handshake_timeout: 0,
            disconnect_timeout: 3000,
            max_topic_alias: 32,
        }
    }

    /// The deadline of the handshake in milliseconds, if there is one.
    pub fn handshake_deadline(&self) -> (deadline: Option<u64>)
        ensures
            deadline == if self.handshake_timeout == 0 {
                None::<u64>
            } else {
                Some(self.handshake_timeout as u64)
            },
    {
        if self.handshake_timeout == 0 {
            None
        } else {
            Some(self.handshake_timeout as u64)
        }
    }

    /// The grace for an orderly close in milliseconds, if there is one.
    pub fn disconnect_grace(&self) -> (grace: Option<u64>)
        ensures
            grace == if self.disconnect_timeout == 0 {
                None::<u64>
            } else {
                Some(self.disconnect_timeout as u64)
            },
    {
        if self.disconnect_timeout == 0 {
            None
        } else {
            Some(self.disconnect_timeout as u64)
        }
    }
}

/// What a handshake that ran under a deadline ended with: the error of the
/// handshake itself, or `HandshakeTimeout` when the deadline passed first.
pub fn handshake_error<E>(err: TimeoutError<MqttError<E>>) -> (mapped: MqttError<E>)
    ensures
        mapped == match err {
            TimeoutError::Service(e) => e,
            TimeoutError::Timeout => MqttError::HandshakeTimeout,
        },
{
    match err {
        TimeoutError::Service(e) => e,
        TimeoutError::Timeout => MqttError::HandshakeTimeout,
    }
}

/// An MQTT 5.0 server in the making: the handshake handler, the control and
/// publish handlers, and the knobs.
pub struct MqttServer<C, Cn, P> {
    handshake: C,
    srv_control: Cn,
    srv_publish: P,
    limits: Limits,
    pool: MqttSinkPool,
}

/// What a finished [`MqttServer`] consists of.
pub struct ServerParts<C, Cn, P> {
    /// The handler that authenticates a connection.
    pub handshake: C,
    /// The handler of control messages.
    pub control: Cn,
    /// The handler of inbound publishes.
    pub publish: P,
    /// The knobs.
    pub limits: Limits,
    /// The pools that the connections draw their channels from.
    pub pool: MqttSinkPool,
}

impl<C> MqttServer<C, DefaultControlService, DefaultPublishService> {
    /// A server that authenticates with `handshake`, acknowledges every
    /// control message, drops every publish, and has the initial knobs.
    pub fn new(handshake: C) -> (server: Self)
        ensures
            server.limits() == Limits::initial(),
            server.handshake_handler() == handshake,
            server.control_handler() == DefaultControlService,
            server.publish_handler() == DefaultPublishService,
    {
        MqttServer {
            handshake,
            srv_control: DefaultControlService,
            srv_publish: DefaultPublishService,
            limits: Limits {
                max_size: 0,
                max_receive: 15,
                max_qos: None,
                handshake_timeout: 0,
                disconnect_timeout: 3000,
                max_topic_alias: 32,
            },
            pool: MqttSinkPool::new(),
        }
    }
}

impl<C, Cn, P> MqttServer<C, Cn, P> {
    /// The knobs as they stand.
    pub closed spec fn limits(&self) -> Limits {
        self.limits
    }

    /// The handler that authenticates a connection.
    pub closed spec fn handshake_handler(&self) -> C {
        self.handshake
    }

    /// The handler of control messages.
    pub closed spec fn control_handler(&self) -> Cn {
        self.srv_control
    }

    /// The handler of inbound publishes.
    pub closed spec fn publish_handler(&self) -> P {
        self.srv_publish
    }

    /// The pools that the connections draw their channels from.
    pub closed spec fn pool(&self) -> MqttSinkPool {
        self.pool
    }

    /// Whether `other` has the handlers and the pools of this server.
    pub open spec fn same_handlers(&self, other: &Self) -> bool {
        &&& other.handshake_handler() == self.handshake_handler()
        &&& other.control_handler() == self.control_handler()
        &&& other.publish_handler() == self.publish_handler()
        &&& other.pool() == self.pool()
    }

    /// Sets the deadline of the handshake in milliseconds. The handshake
    /// runs from the CONNECT packet to the CONNACK reply; zero, the initial
    /// value, means no deadline.
    pub fn handshake_timeout(self, timeout: u16) -> (server: Self)
        ensures
            self.same_handlers(&server),
            server.limits() == (Limits { handshake_timeout: timeout, ..self.limits() }),
    {
        let mut server = self;
        server.limits.handshake_timeout = timeout;
        server
    }

    /// Sets the grace for an orderly close in milliseconds: a disconnect
    /// that takes longer has its connection dropped. Zero means no grace;
    /// the initial value is 3000.
    pub fn disconnect_timeout(self, val: u16) -> (server: Self)
        ensures
            self.same_handlers(&server),
            server.limits() == (Limits { disconnect_timeout: val, ..self.limits() }),
    {
        let mut server = self;
        server.limits.disconnect_timeout = val;
        server
    }

    /// Sets the largest inbound packet in bytes. Zero, the initial value,
    /// means no limit.
    pub fn max_size(self, size: u32) -> (server: Self)
        ensures
            self.same_handlers(&server),
            server.limits() == (Limits { max_size: size, ..self.limits() }),
    {
        let mut server = self;
        server.limits.max_size = size;
        server
    }

    /// Sets how many inbound publishes may be handled at once. The initial
    /// value is 15.
    pub fn receive_max(self, val: u16) -> (server: Self)
        ensures
            self.same_handlers(&server),
            server.limits() == (Limits { max_receive: val, ..self.limits() }),
    {
        let mut server = self;
        server.limits.max_receive = val;
        server
    }

    /// Sets the highest topic alias that the server accepts. The initial
    /// value is 32.
    pub fn max_topic_alias(self, val: u16) -> (server: Self)
        ensures
            self.same_handlers(&server),
            server.limits() == (Limits { max_topic_alias: val, ..self.limits() }),
    {
        let mut server = self;
        server.limits.max_topic_alias = val;
        server
    }

    /// Sets the highest QoS that the server announces. Initially it
    /// announces none.
    pub fn max_qos(self, qos: QoS) -> (server: Self)
        ensures
            self.same_handlers(&server),
            server.limits() == (Limits { max_qos: Some(qos), ..self.limits() }),
    {
        let mut server = self;
        server.limits.max_qos = Some(qos);
        server
    }

    /// Replaces the handler of control messages.
    pub fn control<Srv>(self, service: Srv) -> (server: MqttServer<C, Srv, P>)
        ensures
            server.limits() == self.limits(),
            server.handshake_handler() == self.handshake_handler(),
            server.control_handler() == service,
            server.publish_handler() == self.publish_handler(),
            server.pool() == self.pool(),
    {
        MqttServer {
            handshake: self.handshake,
            srv_control: service,
            srv_publish: self.srv_publish,
            limits: self.limits,
            pool: self.pool,
        }
    }

    /// Replaces the handler of inbound publishes.
    pub fn publish<Srv>(self, publish: Srv) -> (server: MqttServer<C, Cn, Srv>)
        ensures
            server.limits() == self.limits(),
            server.handshake_handler() == self.handshake_handler(),
            server.control_handler() == self.control_handler(),
            server.publish_handler() == publish,
            server.pool() == self.pool(),
    {
        MqttServer {
            handshake: self.handshake,
            srv_control: self.srv_control,
            srv_publish: publish,
            limits: self.limits,
            pool: self.pool,
        }
    }

    /// Finishes the configuration and hands out what the server consists
    /// of, for the caller to wire to its transport.
    pub fn finish(self) -> (parts: ServerParts<C, Cn, P>)
        ensures
            parts.handshake == self.handshake_handler(),
            parts.control == self.control_handler(),
            parts.publish == self.publish_handler(),
            parts.limits == self.limits(),
            parts.pool == self.pool(),
    {
        ServerParts {
            handshake: self.handshake,
            control: self.srv_control,
            publish: self.srv_publish,
            limits: self.limits,
            pool: self.pool,
        }
    }
}

} // verus!
