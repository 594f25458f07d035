//! The handlers that serve a connection when the application supplies none.
use crate::control::{ControlMessage, ControlResult};
use crate::types::Publish;
use vstd::prelude::*;

verus! {

/// The publish handler that is used when none is supplied: it takes every
/// publish and does nothing with it.
#[derive(Debug)]
pub struct DefaultPublishService;

impl Default for DefaultPublishService {
    fn default() -> (service: Self)
        ensures
            service == DefaultPublishService,
    {
        DefaultPublishService
    }
}

impl DefaultPublishService {
    /// Whether the handler can take a publish: always.
    pub fn poll_ready(&self) -> (ready: bool)
        ensures
            ready,
    {
        true
    }

    /// Takes `publish` and drops it.
    pub fn call(&self, publish: Publish) {
    }
}

/// The control handler that is used when none is supplied: it acknowledges
/// every control message.
#[derive(Debug)]
pub struct DefaultControlService;

impl Default for DefaultControlService {
    fn default() -> (service: Self)
        ensures
            service == DefaultControlService,
    {
        DefaultControlService
    }
}

impl DefaultControlService {
    /// Whether the handler can take a control message: always.
    pub fn poll_ready(&self) -> (ready: bool)
        ensures
            ready,
    {
        true
    }

    /// Answers `msg` with its neutral acknowledgement. A subscribe request
    /// that nobody confirmed is answered with a refusal of every filter.
    pub fn call(&self, msg: ControlMessage) -> (result: ControlResult)
        ensures
            msg.acked_by(result),
    {
        match msg {
            ControlMessage::Ping(ping) => ping.ack(),
            ControlMessage::Disconnect(disc) => disc.ack(),
            ControlMessage::Subscribe(subs) => subs.ack(),
            ControlMessage::Unsubscribe(unsubs) => unsubs.ack(),
            ControlMessage::Closed(msg) => msg.ack(),
        }
    }
}

} // verus!
