//! The sink: the side of a connection on which the application originates
//! publishes, subscriptions and unsubscriptions.
//!
//! A request that needs an acknowledgement passes through three steps. The
//! builder's send reserves a slot and hands back the packet to write
//! ([`Sending::Write`]), or tells the caller to wait for credit
//! ([`Sending::Wait`]) or that the request failed. After the write,
//! [`Pending::written`] takes the outcome of the codec. After the peer's
//! answer, [`acknowledged`] or [`subscribe_reply`] says what the caller gets.
use crate::error::{EncodeError, ProtocolError, SendPacketError};
use crate::shared::{Ack, AckType, Link, MqttShared, Reservation, SharedView, Verdict};
use crate::types::{Packet, Publish, QoS, SubscribeReturnCode};
use ntex::channel::pool::Receiver;
use ntex::util::Bytes;
use vstd::prelude::*;

verus! {

/// The outbound side of one connection.
pub struct MqttSink(MqttShared);

impl View for MqttSink {
    type V = SharedView;

    closed spec fn view(&self) -> SharedView {
        self.0@
    }
}

/// What [`MqttSink::ready`] found.
pub enum Readiness {
    /// The connection is closed.
    Closed,
    /// No slot is free: the channel tells when one was freed, and fails if
    /// the connection closes first.
    Wait(Receiver<()>),
    /// A slot is free and the connection is open.
    Ready,
}

/// How the send of a request that needs an acknowledgement began.
pub enum Sending<B> {
    /// The request failed: the connection is closed, or the packet
    /// identifier that was asked for is in flight.
    Failed(SendPacketError),
    /// No credit is left. The caller awaits the channel, passes what it
    /// yields through [`after_wait`], and sends the builder again.
    Wait(B, Receiver<()>),
    /// The request is recorded. The caller writes the packet and reports
    /// the outcome to [`Pending::written`].
    Write(Packet, Pending),
}

impl<B> Sending<B> {
    /// The answer of the bookkeeping that this outcome stands for.
    pub open spec fn verdict(&self) -> Verdict {
        match self {
            Sending::Failed(SendPacketError::PacketIdInUse(_)) => Verdict::InUse,
            Sending::Failed(_) => Verdict::Closed,
            Sending::Wait(_, _) => Verdict::Wait,
            Sending::Write(_, pending) => Verdict::Granted(pending.packet_id()),
        }
    }
}

/// A request that is recorded as in flight and not yet written.
pub struct Pending {
    id: u16,
    reply: Receiver<Ack>,
}

impl Pending {
    /// The packet identifier under which the request is recorded.
    pub closed spec fn spec_packet_id(&self) -> u16 {
        self.id
    }

    /// The packet identifier under which the request is recorded.
    #[verifier::when_used_as_spec(spec_packet_id)]
    pub fn packet_id(&self) -> (id: u16)
        ensures
            id == self.spec_packet_id(),
    {
        self.id
    }

    /// The channel that delivers the acknowledgement.
    pub closed spec fn reply(&self) -> Receiver<Ack> {
        self.reply
    }

    /// Takes the outcome of writing the packet. After a successful write the
    /// caller awaits the returned channel. After a failure of the codec the
    /// request leaves the bookkeeping and the error is reported.
    pub fn written(self, sink: &mut MqttSink, outcome: Result<(), EncodeError>) -> (next: Result<
        Receiver<Ack>,
        SendPacketError,
    >)
        requires
            old(sink).wf(),
        ensures
            final(sink).wf(),
            match outcome {
                Ok(_) => next == Ok::<Receiver<Ack>, SendPacketError>(self.reply()) && final(sink)@
                    == old(sink)@,
                Err(e) => next == Err::<Receiver<Ack>, SendPacketError>(
                    SendPacketError::Encode(e),
                ) && final(sink)@ == old(sink)@.unregistered(self.packet_id()),
            },
    {
        match outcome {
            Ok(_) => Ok(self.reply),
            Err(e) => {
                sink.0.unregister(self.id);
                Err(SendPacketError::Encode(e))
            },
        }
    }
}

/// What a caller that waited for credit does next: it goes on when it was
/// told that credit was freed, and fails when its channel was closed
/// instead.
pub fn after_wait(freed: bool) -> (next: Result<(), SendPacketError>)
    ensures
        next == if freed {
            Ok::<(), SendPacketError>(())
        } else {
            Err::<(), SendPacketError>(SendPacketError::Disconnected)
        },
{
    if freed {
        Ok(())
    } else {
        Err(SendPacketError::Disconnected)
    }
}

/// What a publish or an unsubscribe resolves to: success when the
/// acknowledgement arrived, and `Disconnected` when the channel was closed
/// without one.
pub fn acknowledged(reply: Option<Ack>) -> (outcome: Result<(), SendPacketError>)
    ensures
        outcome == if reply is Some {
            Ok::<(), SendPacketError>(())
        } else {
            Err::<(), SendPacketError>(SendPacketError::Disconnected)
        },
{
    match reply {
        Some(_) => Ok(()),
        None => Err(SendPacketError::Disconnected),
    }
}

/// What a subscribe resolves to: the return codes of the peer, one per
/// filter, when the SUBACK arrived, and `Disconnected` when the channel was
/// closed without one.
pub fn subscribe_reply(reply: Option<Ack>) -> (outcome: Result<
    Vec<SubscribeReturnCode>,
    SendPacketError,
>)
    requires
        reply matches Some(ack) ==> ack is Subscribe,
    ensures
        match reply {
            Some(ack) => outcome == Ok::<Vec<SubscribeReturnCode>, SendPacketError>(ack->status),
            None => outcome == Err::<Vec<SubscribeReturnCode>, SendPacketError>(
                SendPacketError::Disconnected,
            ),
        },
{
    match reply {
        Some(ack) => Ok(ack.subscribe()),
        None => Err(SendPacketError::Disconnected),
    }
}

/// What a publish without acknowledgement resolves to once the packet was
/// handed to the codec.
pub fn written(outcome: Result<(), EncodeError>) -> (sent: Result<(), SendPacketError>)
    ensures
        sent == match outcome {
            Ok(_) => Ok::<(), SendPacketError>(()),
            Err(e) => Err::<(), SendPacketError>(SendPacketError::Encode(e)),
        },
{
    match outcome {
        Ok(_) => Ok(()),
        Err(e) => Err(SendPacketError::Encode(e)),
    }
}

impl MqttSink {
    /// The invariants of the bookkeeping hold.
    pub open spec fn wf(&self) -> bool {
        self@.wf()
    }

    /// The sink of the connection whose state is `state`.
    pub fn new(state: MqttShared) -> (sink: Self)
        requires
            state.wf(),
        ensures
            sink.wf(),
            sink@ == state@,
    {
        MqttSink(state)
    }

    /// How many more requests the peer accepts before it acknowledges one.
    pub fn credit(&self) -> (free: usize)
        requires
            self.wf(),
        ensures
            free == self@.credit(),
    {
        self.0.credit()
    }

    /// Whether requests can still be sent: this side has not closed the
    /// connection, and the transport reports that it is open.
    pub fn is_open(&self) -> (open: bool)
        ensures
            open ==> self@.link is Open,
    {
        self.0.is_open()
    }

    /// Tells whether a request could be sent now, given whether the
    /// connection is open. Without a free slot the caller joins the queue of
    /// waiters.
    pub fn ready_when(&mut self, open: bool) -> (found: Readiness)
        requires
            old(self).wf(),
        ensures
            final(self).wf(),
            match found {
                Readiness::Closed => !open && final(self)@ == old(self)@,
                Readiness::Ready => open && old(self)@.has_credit() && final(self)@ == old(self)@,
                Readiness::Wait(_) => open && !old(self)@.has_credit() && final(self)@ == old(
                    self,
                )@.queued(final(self)@.waiters.last()),
            },
    {
        if !open {
            Readiness::Closed
        } else if !self.0.has_credit() {
            Readiness::Wait(self.0.wait_for_credit())
        } else {
            Readiness::Ready
        }
    }

    /// Tells whether a request could be sent now, as
    /// [`MqttSink::ready_when`] does, after asking the transport whether the
    /// connection is open.
    pub fn ready(&mut self) -> (found: Readiness)
        requires
            old(self).wf(),
        ensures
            final(self).wf(),
            !(old(self)@.link is Open) ==> found is Closed,
            match found {
                Readiness::Closed => final(self)@ == old(self)@,
                Readiness::Ready => old(self)@.has_credit() && final(self)@ == old(self)@,
                Readiness::Wait(_) => !old(self)@.has_credit() && final(self)@ == old(
                    self,
                )@.queued(final(self)@.waiters.last()),
            },
    {
        let open = self.0.is_open();
        self.ready_when(open)
    }

    /// Closes the connection gracefully. Every request in flight and every
    /// waiter is dropped, so that each caller sees its channel closed.
    /// Closing again changes nothing more.
    pub fn close(&mut self)
        requires
            old(self).wf(),
        ensures
            final(self).wf(),
            final(self)@ == old(self)@.closed(Link::Closed),
    {
        self.0.close();
    }

    /// Closes the connection without waiting for responses that are not
    /// complete. The bookkeeping is dropped as [`MqttSink::close`] does.
    pub fn force_close(&mut self)
        requires
            old(self).wf(),
        ensures
            final(self).wf(),
            final(self)@ == old(self)@.closed(Link::ForceClosed),
    {
        self.0.force_close();
    }

    /// The keep-alive probe to write.
    pub fn ping(&self) -> (packet: Packet)
        ensures
            packet == Packet::PingRequest,
    {
        Packet::PingRequest
    }

    /// Starts a publish of `payload` to `topic`.
    pub fn publish(&self, topic: String, payload: Bytes) -> (builder: PublishBuilder)
        ensures
            builder.packet() == (Publish {
                dup: false,
                retain: false,
                qos: QoS::AtMostOnce,
                topic,
                packet_id: None,
                payload,
            }),
    {
        PublishBuilder {
            packet: Publish {
                dup: false,
                retain: false,
                qos: QoS::AtMostOnce,
                topic,
                packet_id: None,
                payload,
            },
        }
    }

    /// Starts a subscribe request without filters.
    pub fn subscribe(&self) -> (builder: SubscribeBuilder)
        ensures
            builder.wanted() == 0,
            builder.filters() == Seq::<(String, QoS)>::empty(),
    {
        SubscribeBuilder { id: 0, topic_filters: Vec::new() }
    }

    /// Starts an unsubscribe request without filters.
    pub fn unsubscribe(&self) -> (builder: UnsubscribeBuilder)
        ensures
            builder.wanted() == 0,
            builder.filters() == Seq::<String>::empty(),
    {
        UnsubscribeBuilder { id: 0, topic_filters: Vec::new() }
    }

    /// Takes in an acknowledgement that the peer sent.
    ///
    /// The acknowledgement must be for the request that was sent first and
    /// have the shape that this request expects. It is then delivered to the
    /// caller that awaits it, the request leaves the bookkeeping, and the
    /// caller that has waited longest for credit is told to go on (callers
    /// that have given up leave the queue unheard). Any other
    /// acknowledgement closes the connection and is answered with the
    /// protocol error.
    pub fn pkt_ack(&mut self, pkt: Ack) -> (verdict: Result<(), ProtocolError>)
        requires
            old(self).wf(),
        ensures
            final(self).wf(),
            verdict == old(self)@.ack_verdict(pkt),
            verdict is Ok ==> {
                &&& final(self)@.waiters.len() <= old(self)@.waiters.len()
                &&& old(self)@.waiters.len() > 0 ==> final(self)@.waiters.len() < old(
                    self,
                )@.waiters.len()
                &&& final(self)@ == old(self)@.acked(
                    old(self)@.waiters.len() - final(self)@.waiters.len(),
                )
            },
            verdict is Err ==> final(self)@ == old(self)@.closed(Link::Closed),
    {
        self.0.pkt_ack(pkt)
    }

    /// Whether requests can still be sent, given what the transport
    /// reports: they can when this side has not closed the connection and
    /// the transport says that it is open.
    pub fn is_open_when(&self, transport: bool) -> (open: bool)
        ensures
            open == (self@.link is Open && transport),
    {
        self.0.is_open_when(transport)
    }
}

/// A publish that is being put together.
pub struct PublishBuilder {
    packet: Publish,
}

impl PublishBuilder {
    /// The packet as it stands.
    pub closed spec fn packet(&self) -> Publish {
        self.packet
    }

    /// The packet identifier that the caller asks for, or zero for the next
    /// free one.
    pub open spec fn wanted(&self) -> u16 {
        match self.packet().packet_id {
            Some(id) => id,
            None => 0,
        }
    }

    /// Sets the packet identifier, which is otherwise allocated when the
    /// publish is sent. Identifiers set by hand and allocated ones should
    /// not be mixed on one connection.
    pub fn packet_id(self, id: u16) -> (builder: Self)
        requires
            id != 0,
        ensures
            builder.packet() == (Publish { packet_id: Some(id), ..self.packet() }),
    {
        PublishBuilder { packet: Publish { packet_id: Some(id), ..self.packet } }
    }

    /// Marks the publish as a possible re-delivery of an earlier attempt.
    pub fn dup(self, val: bool) -> (builder: Self)
        ensures
            builder.packet() == (Publish { dup: val, ..self.packet() }),
    {
        PublishBuilder { packet: Publish { dup: val, ..self.packet } }
    }

    /// Asks the server to keep the message for future subscribers.
    pub fn retain(self) -> (builder: Self)
        ensures
            builder.packet() == (Publish { retain: true, ..self.packet() }),
    {
        PublishBuilder { packet: Publish { retain: true, ..self.packet } }
    }

    /// The packet of a publish without acknowledgement, given whether the
    /// connection is open.
    pub fn at_most_once_when(self, open: bool) -> (sent: Result<Packet, SendPacketError>)
        ensures
            sent == if open {
                Ok::<Packet, SendPacketError>(Packet::Publish(self.packet()))
            } else {
                Err::<Packet, SendPacketError>(SendPacketError::Disconnected)
            },
    {
        if open {
            Ok(Packet::Publish(self.packet))
        } else {
            Err(SendPacketError::Disconnected)
        }
    }

    /// Sends the publish with QoS 0: hands back the packet to write, or
    /// fails with `Disconnected` on a closed connection. Nothing is
    /// recorded as in flight. The outcome of the write goes through
    /// [`written`].
    pub fn send_at_most_once(self, sink: &MqttSink) -> (sent: Result<Packet, SendPacketError>)
        ensures
            match sent {
                Ok(packet) => packet == Packet::Publish(self.packet()) && sink@.link is Open,
                Err(e) => e == SendPacketError::Disconnected,
            },
    {
        let open = sink.is_open();
        self.at_most_once_when(open)
    }

    /// Sends the publish with QoS 1.
    ///
    /// On a closed connection the send fails with `Disconnected`. Without
    /// credit the caller joins the queue of waiters and gets the builder
    /// back. Otherwise the packet identifier is the one that was set, which
    /// fails with `PacketIdInUse` if it is in flight, or the next free one;
    /// the request is recorded as in flight and the packet to write is
    /// handed back.
    pub fn send_at_least_once(self, sink: &mut MqttSink) -> (sending: Sending<PublishBuilder>)
        requires
            old(sink).wf(),
        ensures
            final(sink).wf(),
            old(sink)@.answers(!(sending.verdict() is Closed), self.wanted(), sending.verdict()),
            !(old(sink)@.link is Open) ==> sending.verdict() is Closed,
            final(sink)@ == old(sink)@.answered(
                self.wanted(),
                AckType::Publish,
                sending.verdict(),
                final(sink)@.waiters.last(),
            ),
            match sending {
                Sending::Failed(e) => e == SendPacketError::Disconnected || e
                    == SendPacketError::PacketIdInUse(self.wanted()),
                Sending::Wait(builder, _) => builder == self,
                Sending::Write(packet, pending) => packet == Packet::Publish(
                    Publish {
                        qos: QoS::AtLeastOnce,
                        packet_id: Some(pending.packet_id()),
                        ..self.packet()
                    },
                ),
            },
    {
        let wanted = match self.packet.packet_id {
            Some(id) => id,
            None => 0,
        };
        match sink.0.reserve(wanted, AckType::Publish) {
            Reservation::Closed => Sending::Failed(SendPacketError::Disconnected),
            Reservation::InUse => Sending::Failed(SendPacketError::PacketIdInUse(wanted)),
            Reservation::Wait(rx) => Sending::Wait(self, rx),
            Reservation::Granted(id, reply) => Sending::Write(
                Packet::Publish(
                    Publish { qos: QoS::AtLeastOnce, packet_id: Some(id), ..self.packet },
                ),
                Pending { id, reply },
            ),
        }
    }
}

/// A subscribe request that is being put together.
pub struct SubscribeBuilder {
    id: u16,
    topic_filters: Vec<(String, QoS)>,
}

impl SubscribeBuilder {
    /// The packet identifier that the caller asks for, or zero for the next
    /// free one.
    pub closed spec fn wanted(&self) -> u16 {
        self.id
    }

    /// The topic filters so far, each with the QoS asked for.
    pub closed spec fn filters(&self) -> Seq<(String, QoS)> {
        self.topic_filters@
    }

    /// Sets the packet identifier, which is otherwise allocated when the
    /// request is sent.
    pub fn packet_id(self, id: u16) -> (builder: Self)
        requires
            id != 0,
        ensures
            builder.wanted() == id,
            builder.filters() == self.filters(),
    {
        SubscribeBuilder { id, topic_filters: self.topic_filters }
    }

    /// Adds a topic filter with the QoS asked for.
    pub fn topic_filter(self, filter: String, qos: QoS) -> (builder: Self)
        ensures
            builder.wanted() == self.wanted(),
            builder.filters() == self.filters().push((filter, qos)),
    {
        let mut topic_filters = self.topic_filters;
        topic_filters.push((filter, qos));
        SubscribeBuilder { id: self.id, topic_filters }
    }

    /// Sends the subscribe request, as a QoS 1 publish is sent but for the
    /// acknowledgement it expects, a SUBACK. What the peer answers goes
    /// through [`subscribe_reply`].
    pub fn send(self, sink: &mut MqttSink) -> (sending: Sending<SubscribeBuilder>)
        requires
            old(sink).wf(),
        ensures
            final(sink).wf(),
            old(sink)@.answers(!(sending.verdict() is Closed), self.wanted(), sending.verdict()),
            !(old(sink)@.link is Open) ==> sending.verdict() is Closed,
            final(sink)@ == old(sink)@.answered(
                self.wanted(),
                AckType::Subscribe,
                sending.verdict(),
                final(sink)@.waiters.last(),
            ),
            match sending {
                Sending::Failed(e) => e == SendPacketError::Disconnected || e
                    == SendPacketError::PacketIdInUse(self.wanted()),
                Sending::Wait(builder, _) => builder == self,
                Sending::Write(packet, pending) => {
                    &&& packet matches Packet::Subscribe { packet_id, topic_filters }
                    &&& packet_id == pending.packet_id()
                    &&& topic_filters@ == self.filters()
                },
            },
    {
        match sink.0.reserve(self.id, AckType::Subscribe) {
            Reservation::Closed => Sending::Failed(SendPacketError::Disconnected),
            Reservation::InUse => Sending::Failed(SendPacketError::PacketIdInUse(self.id)),
            Reservation::Wait(rx) => Sending::Wait(self, rx),
            Reservation::Granted(id, reply) => Sending::Write(
                Packet::Subscribe { packet_id: id, topic_filters: self.topic_filters },
                Pending { id, reply },
            ),
        }
    }
}

/// An unsubscribe request that is being put together.
pub struct UnsubscribeBuilder {
    id: u16,
    topic_filters: Vec<String>,
}

impl UnsubscribeBuilder {
    /// The packet identifier that the caller asks for, or zero for the next
    /// free one.
    pub closed spec fn wanted(&self) -> u16 {
        self.id
    }

    /// The topic filters so far.
    pub closed spec fn filters(&self) -> Seq<String> {
        self.topic_filters@
    }

    /// Sets the packet identifier, which is otherwise allocated when the
    /// request is sent.
    pub fn packet_id(self, id: u16) -> (builder: Self)
        requires
            id != 0,
        ensures
            builder.wanted() == id,
            builder.filters() == self.filters(),
    {
        UnsubscribeBuilder { id, topic_filters: self.topic_filters }
    }

    /// Adds a topic filter.
    pub fn topic_filter(self, filter: String) -> (builder: Self)
        ensures
            builder.wanted() == self.wanted(),
            builder.filters() == self.filters().push(filter),
    {
        let mut topic_filters = self.topic_filters;
        topic_filters.push(filter);
        UnsubscribeBuilder { id: self.id, topic_filters }
    }

    /// Sends the unsubscribe request, as a QoS 1 publish is sent but for the
    /// acknowledgement it expects, an UNSUBACK. What the peer answers goes
    /// through [`acknowledged`].
    pub fn send(self, sink: &mut MqttSink) -> (sending: Sending<UnsubscribeBuilder>)
        requires
            old(sink).wf(),
        ensures
            final(sink).wf(),
            old(sink)@.answers(!(sending.verdict() is Closed), self.wanted(), sending.verdict()),
            !(old(sink)@.link is Open) ==> sending.verdict() is Closed,
            final(sink)@ == old(sink)@.answered(
                self.wanted(),
                AckType::Unsubscribe,
                sending.verdict(),
                final(sink)@.waiters.last(),
            ),
            match sending {
                Sending::Failed(e) => e == SendPacketError::Disconnected || e
                    == SendPacketError::PacketIdInUse(self.wanted()),
                Sending::Wait(builder, _) => builder == self,
                Sending::Write(packet, pending) => {
                    &&& packet matches Packet::Unsubscribe { packet_id, topic_filters }
                    &&& packet_id == pending.packet_id()
                    &&& topic_filters@ == self.filters()
                },
            },
    {
        match sink.0.reserve(self.id, AckType::Unsubscribe) {
            Reservation::Closed => Sending::Failed(SendPacketError::Disconnected),
            Reservation::InUse => Sending::Failed(SendPacketError::PacketIdInUse(self.id)),
            Reservation::Wait(rx) => Sending::Wait(self, rx),
            Reservation::Granted(id, reply) => Sending::Write(
                Packet::Unsubscribe { packet_id: id, topic_filters: self.topic_filters },
                Pending { id, reply },
            ),
        }
    }
}

} // verus!
