//! The session: what a connection hands to the application's handlers.
use crate::sink::MqttSink;
use vstd::prelude::*;

verus! {

/// The state of the application for one connection, the sink of the
/// connection, and the limits that the handshake negotiated.
pub struct Session<St> {
    st: St,
    sink: MqttSink,
    max_receive: u16,
    max_topic_alias: u16,
}

impl<St> Session<St> {
    /// The state of the application.
    pub closed spec fn spec_state(&self) -> St {
        self.st
    }

    /// The sink of the connection.
    pub closed spec fn spec_sink(&self) -> MqttSink {
        self.sink
    }

    /// How many inbound publishes may be handled at once; zero for no limit.
    pub closed spec fn spec_max_receive(&self) -> u16 {
        self.max_receive
    }

    /// The highest topic alias that the peer may use.
    pub closed spec fn spec_max_topic_alias(&self) -> u16 {
        self.max_topic_alias
    }

    /// The session of a connection without negotiated limits.
    pub fn new(st: St, sink: MqttSink) -> (session: Self)
        ensures
            session.spec_state() == st,
            session.spec_sink() == sink,
            session.spec_max_receive() == 0,
            session.spec_max_topic_alias() == 0,
    {
        Session { st, sink, max_receive: 0, max_topic_alias: 0 }
    }

    /// The session of a connection with the limits that its handshake
    /// negotiated.
    pub fn new_v5(st: St, sink: MqttSink, max_receive: u16, max_topic_alias: u16) -> (session: Self)
        ensures
            session.spec_state() == st,
            session.spec_sink() == sink,
            session.spec_max_receive() == max_receive,
            session.spec_max_topic_alias() == max_topic_alias,
    {
        Session { st, sink, max_receive, max_topic_alias }
    }

    /// The state of the application.
    pub fn state(&self) -> (st: &St)
        ensures
            *st == self.spec_state(),
    {
        &self.st
    }

    /// The sink of the connection.
    pub fn sink(&self) -> (sink: &MqttSink)
        ensures
            *sink == self.spec_sink(),
    {
        &self.sink
    }

    /// The sink of the connection, to send on and to take acknowledgements
    /// in. Whatever is done to the sink, the rest of the session stays.
    pub fn sink_mut(&mut self) -> (sink: &mut MqttSink)
        ensures
            *sink == old(self).spec_sink(),
            final(self).spec_sink() == *final(sink),
            final(self).spec_state() == old(self).spec_state(),
            final(self).spec_max_receive() == old(self).spec_max_receive(),
            final(self).spec_max_topic_alias() == old(self).spec_max_topic_alias(),
    {
        &mut self.sink
    }

    /// How many inbound publishes may be handled at once; zero for no limit.
    #[verifier::when_used_as_spec(spec_max_receive)]
    pub fn max_receive(&self) -> (limit: u16)
        ensures
            limit == self.spec_max_receive(),
    {
        self.max_receive
    }

    /// The highest topic alias that the peer may use.
    #[verifier::when_used_as_spec(spec_max_topic_alias)]
    pub fn max_topic_alias(&self) -> (limit: u16)
        ensures
            limit == self.spec_max_topic_alias(),
    {
        self.max_topic_alias
    }
}

} // verus!
