//! The control messages that the dispatcher hands to the application, each
//! with the acknowledgement that answers it.
use crate::error::ProtocolError;
use crate::types::{QoS, SubscribeReturnCode};
use vstd::prelude::*;

verus! {

/// The reply that the dispatcher emits for a control message.
#[derive(Debug, PartialEq, Eq)]
pub enum ControlResult {
    /// Answer the probe with PINGRESP.
    Ping,
    /// The peer said goodbye: close gracefully.
    Disconnect,
    /// Answer with SUBACK under this packet identifier, one return code per
    /// filter.
    Subscribe { packet_id: u16, codes: Vec<SubscribeReturnCode> },
    /// Answer with UNSUBACK under this packet identifier.
    Unsubscribe { packet_id: u16 },
    /// The connection is gone: nothing is written.
    Closed,
}

/// A keep-alive probe of the peer.
#[derive(Debug, PartialEq, Eq)]
pub struct Ping;

impl Ping {
    /// Acknowledges the probe.
    pub fn ack(self) -> (result: ControlResult)
        ensures
            result == ControlResult::Ping,
    {
        ControlResult::Ping
    }
}

/// The peer's notice that it disconnects.
#[derive(Debug, PartialEq, Eq)]
pub struct Disconnect;

impl Disconnect {
    /// Acknowledges the notice.
    pub fn ack(self) -> (result: ControlResult)
        ensures
            result == ControlResult::Disconnect,
    {
        ControlResult::Disconnect
    }
}

/// A subscribe request of the peer. Each filter starts out refused; the
/// handler confirms those it accepts.
#[derive(Debug, PartialEq, Eq)]
pub struct Subscribe {
    packet_id: u16,
    topic_filters: Vec<(String, QoS)>,
    codes: Vec<SubscribeReturnCode>,
}

impl Subscribe {
    /// The packet identifier of the request.
    pub closed spec fn spec_packet_id(&self) -> u16 {
        self.packet_id
    }

    /// The topic filters of the request, each with the QoS asked for.
    pub closed spec fn filters(&self) -> Seq<(String, QoS)> {
        self.topic_filters@
    }

    /// The return codes as they stand, one per filter.
    pub closed spec fn codes(&self) -> Seq<SubscribeReturnCode> {
        self.codes@
    }

    /// Every filter has its return code.
    pub open spec fn wf(&self) -> bool {
        self.codes().len() == self.filters().len()
    }

    /// The request with every filter refused.
    pub fn new(packet_id: u16, topic_filters: Vec<(String, QoS)>) -> (request: Self)
        ensures
            request.wf(),
            request.spec_packet_id() == packet_id,
            request.filters() == topic_filters@,
            forall|i: int|
                0 <= i < topic_filters@.len() ==> request.codes()[i]
                    == SubscribeReturnCode::Failure,
    {
        let mut codes: Vec<SubscribeReturnCode> = Vec::new();
        let mut i: usize = 0;
        while i < topic_filters.len()
            invariant
                i <= topic_filters.len(),
                codes@.len() == i,
                forall|j: int| 0 <= j < i ==> codes@[j] == SubscribeReturnCode::Failure,
            decreases topic_filters.len() - i,
        {
            codes.push(SubscribeReturnCode::Failure);
            i = i + 1;
        }
        Subscribe { packet_id, topic_filters, codes }
    }

    /// The packet identifier of the request.
    #[verifier::when_used_as_spec(spec_packet_id)]
    pub fn packet_id(&self) -> (id: u16)
        ensures
            id == self.spec_packet_id(),
    {
        self.packet_id
    }

    /// How many filters the request holds.
    pub fn len(&self) -> (n: usize)
        ensures
            n == self.filters().len(),
    {
        self.topic_filters.len()
    }

    /// Accepts the filter at `index` with the maximum QoS `qos`.
    pub fn confirm(&mut self, index: usize, qos: QoS)
        requires
            old(self).wf(),
            index < old(self).filters().len(),
        ensures
            final(self).wf(),
            final(self).spec_packet_id() == old(self).spec_packet_id(),
            final(self).filters() == old(self).filters(),
            final(self).codes() == old(self).codes().update(
                index as int,
                SubscribeReturnCode::Success(qos),
            ),
    {
        self.codes.set(index, SubscribeReturnCode::Success(qos));
    }

    /// Refuses the filter at `index`.
    pub fn fail(&mut self, index: usize)
        requires
            old(self).wf(),
            index < old(self).filters().len(),
        ensures
            final(self).wf(),
            final(self).spec_packet_id() == old(self).spec_packet_id(),
            final(self).filters() == old(self).filters(),
            final(self).codes() == old(self).codes().update(
                index as int,
                SubscribeReturnCode::Failure,
            ),
    {
        self.codes.set(index, SubscribeReturnCode::Failure);
    }

    /// Acknowledges the request with the return codes as they stand.
    pub fn ack(self) -> (result: ControlResult)
        ensures
            result matches ControlResult::Subscribe { packet_id, codes } && packet_id
                == self.spec_packet_id() && codes@ == self.codes(),
    {
        ControlResult::Subscribe { packet_id: self.packet_id, codes: self.codes }
    }
}

/// An unsubscribe request of the peer.
#[derive(Debug, PartialEq, Eq)]
pub struct Unsubscribe {
    packet_id: u16,
    topic_filters: Vec<String>,
}

impl Unsubscribe {
    /// The packet identifier of the request.
    pub closed spec fn spec_packet_id(&self) -> u16 {
        self.packet_id
    }

    /// The topic filters of the request.
    pub closed spec fn filters(&self) -> Seq<String> {
        self.topic_filters@
    }

    /// The request as the peer sent it.
    pub fn new(packet_id: u16, topic_filters: Vec<String>) -> (request: Self)
        ensures
            request.spec_packet_id() == packet_id,
            request.filters() == topic_filters@,
    {
        Unsubscribe { packet_id, topic_filters }
    }

    /// The packet identifier of the request.
    #[verifier::when_used_as_spec(spec_packet_id)]
    pub fn packet_id(&self) -> (id: u16)
        ensures
            id == self.spec_packet_id(),
    {
        self.packet_id
    }

    /// Acknowledges the request.
    pub fn ack(self) -> (result: ControlResult)
        ensures
            result == (ControlResult::Unsubscribe { packet_id: self.spec_packet_id() }),
    {
        ControlResult::Unsubscribe { packet_id: self.packet_id }
    }
}

/// The notice that the connection is closed, with the protocol error that
/// closed it if there was one.
#[derive(Debug, PartialEq, Eq)]
pub struct Closed {
    reason: Option<ProtocolError>,
}

impl Closed {
    /// The protocol error that closed the connection, if any.
    pub closed spec fn spec_reason(&self) -> Option<ProtocolError> {
        self.reason
    }

    /// The notice for a connection that `reason` closed.
    pub fn new(reason: Option<ProtocolError>) -> (notice: Self)
        ensures
            notice.spec_reason() == reason,
    {
        Closed { reason }
    }

    /// The protocol error that closed the connection, if any.
    #[verifier::when_used_as_spec(spec_reason)]
    pub fn reason(&self) -> (reason: Option<ProtocolError>)
        ensures
            reason == self.spec_reason(),
    {
        self.reason
    }

    /// Whether an error closed the connection.
    pub fn is_error(&self) -> (failed: bool)
        ensures
            failed == self.spec_reason() is Some,
    {
        self.reason.is_some()
    }

    /// Acknowledges the notice.
    pub fn ack(self) -> (result: ControlResult)
        ensures
            result == ControlResult::Closed,
    {
        ControlResult::Closed
    }
}

/// A control message for the application's control handler.
#[derive(Debug, PartialEq, Eq)]
pub enum ControlMessage {
    /// The peer probes the connection.
    Ping(Ping),
    /// The peer disconnects.
    Disconnect(Disconnect),
    /// The peer asks to subscribe.
    Subscribe(Subscribe),
    /// The peer asks to unsubscribe.
    Unsubscribe(Unsubscribe),
    /// The connection is closed.
    Closed(Closed),
}

impl ControlMessage {
    /// Whether `result` is the neutral acknowledgement of this message: the
    /// one that its `ack` gives when no handler has touched it.
    pub open spec fn acked_by(&self, result: ControlResult) -> bool {
        match self {
            ControlMessage::Ping(_) => result == ControlResult::Ping,
            ControlMessage::Disconnect(_) => result == ControlResult::Disconnect,
            ControlMessage::Subscribe(request) => {
                &&& result matches ControlResult::Subscribe { packet_id, codes }
                &&& packet_id == request.spec_packet_id()
                &&& codes@ == request.codes()
            },
            ControlMessage::Unsubscribe(request) => result == (ControlResult::Unsubscribe {
                packet_id: request.spec_packet_id(),
            }),
            ControlMessage::Closed(_) => result == ControlResult::Closed,
        }
    }
}

} // verus!
