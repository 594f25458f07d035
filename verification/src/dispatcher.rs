//! The inbound dispatcher: what is done with each packet that the peer
//! sends, and what is written back.
use crate::control::{Closed, ControlMessage, ControlResult, Disconnect, Ping, Subscribe, Unsubscribe};
use crate::error::{MqttError, ProtocolError};
use crate::shared::{Ack, Link};
use crate::sink::MqttSink;
use crate::types::{Packet, Publish, QoS};
use vstd::prelude::*;

verus! {

/// What the dispatcher does with an inbound packet.
pub enum Dispatch {
    /// Hand the publish to the publish handler. When the handler is done,
    /// [`Dispatcher::completed`] gives the response to write.
    Publish(Publish),
    /// The packet was an acknowledgement and the sink took it in.
    Acked,
    /// Hand the message to the control handler. Its result goes through
    /// [`control_reply`].
    Control(ControlMessage),
    /// The packet has no place in an established session and is passed
    /// over.
    Ignored,
}

/// What the dispatcher does with the result of the control handler.
#[derive(Debug, PartialEq, Eq)]
pub enum Reply {
    /// Write the packet.
    Write(Packet),
    /// Close the connection gracefully.
    Close,
    /// The connection is closed already: stop.
    Stop,
}

/// The acknowledgement that an inbound packet carries, if it is one of
/// PUBACK, PUBREC, PUBCOMP, SUBACK and UNSUBACK.
pub open spec fn as_ack(packet: Packet) -> Option<Ack> {
    match packet {
        Packet::PublishAck { packet_id } => Some(Ack::Publish(packet_id)),
        Packet::PublishReceived { packet_id } => Some(Ack::Receive(packet_id)),
        Packet::PublishComplete { packet_id } => Some(Ack::Complete(packet_id)),
        Packet::SubscribeAck { packet_id, status } => Some(Ack::Subscribe { packet_id, status }),
        Packet::UnsubscribeAck { packet_id } => Some(Ack::Unsubscribe(packet_id)),
        _ => None,
    }
}

/// How long the dispatcher waits for an inbound frame, in milliseconds: one
/// and a half times the keep-alive interval of `keepalive` seconds. An
/// interval of zero means that it waits without end.
pub fn keepalive_timeout(keepalive: u16) -> (millis: Option<u32>)
    ensures
        millis == if keepalive == 0 {
            None::<u32>
        } else {
            Some((keepalive * 1500) as u32)
        },
{
    if keepalive == 0 {
        None
    } else {
        let secs: u32 = keepalive as u32;
        Some(secs * 1500)
    }
}

/// What is done with the result `result` of the control handler: a probe
/// is answered with PINGRESP, a subscribe request with SUBACK and an
/// unsubscribe request with UNSUBACK, each under the packet identifier of
/// the request; a disconnect closes the connection gracefully; and after
/// the notice that the connection is closed the dispatcher stops.
pub fn control_reply(result: ControlResult) -> (reply: Reply)
    ensures
        reply == match result {
            ControlResult::Ping => Reply::Write(Packet::PingResponse),
            ControlResult::Subscribe { packet_id, codes } => Reply::Write(
                Packet::SubscribeAck { packet_id, status: codes },
            ),
            ControlResult::Unsubscribe { packet_id } => Reply::Write(
                Packet::UnsubscribeAck { packet_id },
            ),
            ControlResult::Disconnect => Reply::Close,
            ControlResult::Closed => Reply::Stop,
        },
{
    match result {
        ControlResult::Ping => Reply::Write(Packet::PingResponse),
        ControlResult::Subscribe { packet_id, codes } => Reply::Write(
            Packet::SubscribeAck { packet_id, status: codes },
        ),
        ControlResult::Unsubscribe { packet_id } => Reply::Write(
            Packet::UnsubscribeAck { packet_id },
        ),
        ControlResult::Disconnect => Reply::Close,
        ControlResult::Closed => Reply::Stop,
    }
}

/// The response to an inbound publish whose handler is done: none for QoS
/// 0, PUBACK for QoS 1 and PUBREC for QoS 2, under the packet identifier of
/// the publish.
pub open spec fn publish_response(qos: QoS, packet_id: Option<u16>) -> Option<Packet> {
    match (qos, packet_id) {
        (QoS::AtLeastOnce, Some(id)) => Some(Packet::PublishAck { packet_id: id }),
        (QoS::ExactlyOnce, Some(id)) => Some(Packet::PublishReceived { packet_id: id }),
        _ => None,
    }
}

/// The inbound side of one connection: how many publishes the handler may
/// work on at once, and how many it works on now.
pub struct Dispatcher {
    max_receive: u16,
    outstanding: usize,
}

impl Dispatcher {
    /// How many publishes the handler may work on at once; zero for no
    /// limit.
    pub closed spec fn max_receive(&self) -> u16 {
        self.max_receive
    }

    /// How many publishes above QoS 0 the handler works on now.
    pub closed spec fn outstanding(&self) -> nat {
        self.outstanding as nat
    }

    /// Whether the next frame may be read: the handler works on fewer
    /// publishes than it may. At the limit the dispatcher stops reading,
    /// which holds the peer back.
    pub open spec fn spec_can_read(&self) -> bool {
        &&& self.outstanding() < usize::MAX
        &&& self.max_receive() == 0 || self.outstanding() < self.max_receive()
    }

    /// The dispatcher of a session that handles at most `max_receive`
    /// publishes at once, or without limit if `max_receive` is zero.
    pub fn new(max_receive: u16) -> (dispatcher: Self)
        ensures
            dispatcher.max_receive() == max_receive,
            dispatcher.outstanding() == 0,
    {
        Dispatcher { max_receive, outstanding: 0 }
    }

    /// Whether the next frame may be read.
    #[verifier::when_used_as_spec(spec_can_read)]
    pub fn can_read(&self) -> (free: bool)
        ensures
            free == self.spec_can_read(),
    {
        self.outstanding < usize::MAX && (self.max_receive == 0 || self.outstanding
            < self.max_receive as usize)
    }

    /// Takes in a packet of the peer.
    ///
    /// A publish goes to the publish handler, and above QoS 0 it counts as
    /// outstanding until [`Dispatcher::completed`] is told that the handler
    /// is done. An acknowledgement goes to the sink; one that the sink
    /// refuses closes the connection and becomes the notice, for the
    /// control handler, that the connection is closed with that error. A
    /// probe, a subscribe or unsubscribe request and a disconnect go to the
    /// control handler. Any other packet is passed over.
    pub fn dispatch(&mut self, sink: &mut MqttSink, packet: Packet) -> (todo: Dispatch)
        requires
            old(sink).wf(),
            old(self).spec_can_read(),
        ensures
            final(sink).wf(),
            final(self).max_receive() == old(self).max_receive(),
            match packet {
                Packet::Publish(publish) => {
                    &&& todo matches Dispatch::Publish(p)
                    &&& p == publish
                    &&& final(self).outstanding() == old(self).outstanding() + if publish.qos
                        == QoS::AtMostOnce {
                        0nat
                    } else {
                        1nat
                    }
                    &&& final(sink)@ == old(sink)@
                },
                Packet::PingRequest => {
                    &&& todo matches Dispatch::Control(ControlMessage::Ping(_))
                    &&& final(self).outstanding() == old(self).outstanding()
                    &&& final(sink)@ == old(sink)@
                },
                Packet::Disconnect => {
                    &&& todo matches Dispatch::Control(ControlMessage::Disconnect(_))
                    &&& final(self).outstanding() == old(self).outstanding()
                    &&& final(sink)@ == old(sink)@
                },
                Packet::Subscribe { packet_id, topic_filters } => {
                    &&& todo matches Dispatch::Control(ControlMessage::Subscribe(request))
                    &&& request.wf()
                    &&& request.spec_packet_id() == packet_id
                    &&& request.filters() == topic_filters@
                    &&& forall|i: int|
                        0 <= i < topic_filters@.len() ==> request.codes()[i]
                            == crate::types::SubscribeReturnCode::Failure
                    &&& final(self).outstanding() == old(self).outstanding()
                    &&& final(sink)@ == old(sink)@
                },
                Packet::Unsubscribe { packet_id, topic_filters } => {
                    &&& todo matches Dispatch::Control(ControlMessage::Unsubscribe(request))
                    &&& request.spec_packet_id() == packet_id
                    &&& request.filters() == topic_filters@
                    &&& final(self).outstanding() == old(self).outstanding()
                    &&& final(sink)@ == old(sink)@
                },
                _ => {
                    &&& final(self).outstanding() == old(self).outstanding()
                    &&& match as_ack(packet) {
                        Some(ack) => match old(sink)@.ack_verdict(ack) {
                            Ok(_) => {
                                &&& todo is Acked
                                &&& final(sink)@.waiters.len() <= old(sink)@.waiters.len()
                                &&& final(sink)@ == old(sink)@.acked(
                                    old(sink)@.waiters.len() - final(sink)@.waiters.len(),
                                )
                            },
                            Err(e) => {
                                &&& todo matches Dispatch::Control(ControlMessage::Closed(notice))
                                &&& notice.spec_reason() == Some(e)
                                &&& final(sink)@ == old(sink)@.closed(Link::Closed)
                            },
                        },
                        None => todo is Ignored && final(sink)@ == old(sink)@,
                    }
                },
            },
    {
        match packet {
            Packet::Publish(publish) => {
                match publish.qos {
                    QoS::AtMostOnce => {},
                    _ => {
                        self.outstanding = self.outstanding + 1;
                    },
                }
                Dispatch::Publish(publish)
            },
            Packet::PublishAck { packet_id } => Self::acked(sink, Ack::Publish(packet_id)),
            Packet::PublishReceived { packet_id } => Self::acked(sink, Ack::Receive(packet_id)),
            Packet::PublishComplete { packet_id } => Self::acked(sink, Ack::Complete(packet_id)),
            Packet::SubscribeAck { packet_id, status } => Self::acked(
                sink,
                Ack::Subscribe { packet_id, status },
            ),
            Packet::UnsubscribeAck { packet_id } => Self::acked(sink, Ack::Unsubscribe(packet_id)),
            Packet::PingRequest => Dispatch::Control(ControlMessage::Ping(Ping)),
            Packet::Disconnect => Dispatch::Control(ControlMessage::Disconnect(Disconnect)),
            Packet::Subscribe { packet_id, topic_filters } => Dispatch::Control(
                ControlMessage::Subscribe(Subscribe::new(packet_id, topic_filters)),
            ),
            Packet::Unsubscribe { packet_id, topic_filters } => Dispatch::Control(
                ControlMessage::Unsubscribe(Unsubscribe::new(packet_id, topic_filters)),
            ),
            _ => Dispatch::Ignored,
        }
    }

    /// Hands an acknowledgement to the sink.
    fn acked(sink: &mut MqttSink, ack: Ack) -> (todo: Dispatch)
        requires
            old(sink).wf(),
        ensures
            final(sink).wf(),
            match old(sink)@.ack_verdict(ack) {
                Ok(_) => {
                    &&& todo is Acked
                    &&& final(sink)@.waiters.len() <= old(sink)@.waiters.len()
                    &&& final(sink)@ == old(sink)@.acked(
                        old(sink)@.waiters.len() - final(sink)@.waiters.len(),
                    )
                },
                Err(e) => {
                    &&& todo matches Dispatch::Control(ControlMessage::Closed(notice))
                    &&& notice.spec_reason() == Some(e)
                    &&& final(sink)@ == old(sink)@.closed(Link::Closed)
                },
            },
    {
        match sink.pkt_ack(ack) {
            Ok(_) => Dispatch::Acked,
            Err(e) => Dispatch::Control(ControlMessage::Closed(Closed::new(Some(e)))),
        }
    }

    /// Takes note that the publish handler is done with a publish of the
    /// given QoS and packet identifier, and gives the response to write.
    /// Above QoS 0 the publish no longer counts as outstanding.
    pub fn completed(&mut self, qos: QoS, packet_id: Option<u16>) -> (response: Option<Packet>)
        ensures
            final(self).max_receive() == old(self).max_receive(),
            response == publish_response(qos, packet_id),
            final(self).outstanding() == if qos == QoS::AtMostOnce || old(self).outstanding()
                == 0 {
                old(self).outstanding()
            } else {
                (old(self).outstanding() - 1) as nat
            },
    {
        match qos {
            QoS::AtMostOnce => {
                return None;
            },
            _ => {},
        }
        if self.outstanding > 0 {
            self.outstanding = self.outstanding - 1;
        }
        match (qos, packet_id) {
            (QoS::AtLeastOnce, Some(id)) => Some(Packet::PublishAck { packet_id: id }),
            (QoS::ExactlyOnce, Some(id)) => Some(Packet::PublishReceived { packet_id: id }),
            _ => None,
        }
    }

    /// Takes note that no frame arrived within the keep-alive timeout:
    /// closes the connection and gives the notice, for the control handler,
    /// that it is closed with `KeepAliveTimeout`.
    pub fn on_keepalive_timeout(&self, sink: &mut MqttSink) -> (notice: ControlMessage)
        requires
            old(sink).wf(),
        ensures
            final(sink).wf(),
            final(sink)@ == old(sink)@.closed(Link::Closed),
            notice matches ControlMessage::Closed(closed) && closed.spec_reason() == Some(
                ProtocolError::KeepAliveTimeout,
            ),
    {
        sink.close();
        ControlMessage::Closed(Closed::new(Some(ProtocolError::KeepAliveTimeout)))
    }

    /// Takes note that a handler of the application failed with `err`:
    /// closes the connection and gives the error that ends it.
    pub fn on_service_error<E>(&self, sink: &mut MqttSink, err: E) -> (end: MqttError<E>)
        requires
            old(sink).wf(),
        ensures
            final(sink).wf(),
            final(sink)@ == old(sink)@.closed(Link::Closed),
            end == MqttError::Service(err),
    {
        sink.close();
        MqttError::Service(err)
    }
}

} // verus!
