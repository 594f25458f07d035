//! The state that the parties of one connection share: the requests that
//! await an acknowledgement, the order in which they were sent, the callers
//! that wait for credit, and the allocator of packet identifiers.
use crate::error::ProtocolError;
use crate::types::{SubscribeReturnCode, PUBACK, PUBCOMP, PUBREC, SUBACK, UNSUBACK};
use ntex::channel::pool::{Pool, Receiver, Sender};
use ntex::framed::State;
use std::collections::{HashMap, VecDeque};
use vstd::prelude::*;

verus! {

broadcast use vstd::std_specs::hash::group_hash_axioms;

/// The shape of the acknowledgement that a request in flight expects.
#[derive(Clone, Copy, Debug, PartialEq, Eq, Structural)]
pub enum AckType {
    /// PUBACK, for a QoS 1 publish.
    Publish,
    /// PUBREC, for the first phase of a QoS 2 publish.
    Receive,
    /// PUBCOMP, for the second phase of a QoS 2 publish.
    Complete,
    /// SUBACK.
    Subscribe,
    /// UNSUBACK.
    Unsubscribe,
}

impl AckType {
    /// The name by which an error reports the expected acknowledgement.
    pub open spec fn spec_name(&self) -> &'static str {
        match self {
            AckType::Publish => "PublishAck",
            AckType::Receive => "ReceiveAck",
            AckType::Complete => "CompleteAck",
            AckType::Subscribe => "SubscribeAck",
            AckType::Unsubscribe => "UnsubscribeAck",
        }
    }

    /// The name by which an error reports the expected acknowledgement.
    #[verifier::when_used_as_spec(spec_name)]
    pub fn name(&self) -> (name: &'static str)
        ensures
            name == self.spec_name(),
    {
        match self {
            AckType::Publish => "PublishAck",
            AckType::Receive => "ReceiveAck",
            AckType::Complete => "CompleteAck",
            AckType::Subscribe => "SubscribeAck",
            AckType::Unsubscribe => "UnsubscribeAck",
        }
    }
}

/// An acknowledgement that the peer sent.
#[derive(Debug, PartialEq, Eq)]
pub enum Ack {
    /// PUBACK with its packet identifier.
    Publish(u16),
    /// PUBREC with its packet identifier.
    Receive(u16),
    /// PUBCOMP with its packet identifier.
    Complete(u16),
    /// SUBACK with its packet identifier and one return code per filter.
    Subscribe { packet_id: u16, status: Vec<SubscribeReturnCode> },
    /// UNSUBACK with its packet identifier.
    Unsubscribe(u16),
}

impl Ack {
    /// The identifier of the request that this acknowledges.
    pub open spec fn spec_packet_id(&self) -> u16 {
        match self {
            Ack::Publish(id) => *id,
            Ack::Receive(id) => *id,
            Ack::Complete(id) => *id,
            Ack::Subscribe { packet_id, .. } => *packet_id,
            Ack::Unsubscribe(id) => *id,
        }
    }

    /// The shape of this acknowledgement.
    pub open spec fn ack_type(&self) -> AckType {
        match self {
            Ack::Publish(_) => AckType::Publish,
            Ack::Receive(_) => AckType::Receive,
            Ack::Complete(_) => AckType::Complete,
            Ack::Subscribe { .. } => AckType::Subscribe,
            Ack::Unsubscribe(_) => AckType::Unsubscribe,
        }
    }

    /// The first byte of the packet that carried this acknowledgement.
    pub open spec fn spec_packet_type(&self) -> u8 {
        match self {
            Ack::Publish(_) => PUBACK,
            Ack::Receive(_) => PUBREC,
            Ack::Complete(_) => PUBCOMP,
            Ack::Subscribe { .. } => SUBACK,
            Ack::Unsubscribe(_) => UNSUBACK,
        }
    }

    /// The identifier of the request that this acknowledges.
    #[verifier::when_used_as_spec(spec_packet_id)]
    pub fn packet_id(&self) -> (id: u16)
        ensures
            id == self.spec_packet_id(),
    {
        match self {
            Ack::Publish(id) => *id,
            Ack::Receive(id) => *id,
            Ack::Complete(id) => *id,
            Ack::Subscribe { packet_id, .. } => *packet_id,
            Ack::Unsubscribe(id) => *id,
        }
    }

    /// The first byte of the packet that carried this acknowledgement.
    #[verifier::when_used_as_spec(spec_packet_type)]
    pub fn packet_type(&self) -> (tp: u8)
        ensures
            tp == self.spec_packet_type(),
    {
        match self {
            Ack::Publish(_) => PUBACK,
            Ack::Receive(_) => PUBREC,
            Ack::Complete(_) => PUBCOMP,
            Ack::Subscribe { .. } => SUBACK,
            Ack::Unsubscribe(_) => UNSUBACK,
        }
    }

    /// Whether this acknowledgement has the shape that `expected` names.
    pub fn is_match(&self, expected: AckType) -> (matches: bool)
        ensures
            matches == (self.ack_type() == expected),
    {
        match (self, expected) {
            (Ack::Publish(_), AckType::Publish) => true,
            (Ack::Receive(_), AckType::Receive) => true,
            (Ack::Complete(_), AckType::Complete) => true,
            (Ack::Subscribe { .. }, AckType::Subscribe) => true,
            (Ack::Unsubscribe(_), AckType::Unsubscribe) => true,
            (_, _) => false,
        }
    }

    /// The return codes of a SUBACK. Any other acknowledgement carries none.
    pub fn subscribe(self) -> (status: Vec<SubscribeReturnCode>)
        requires
            self is Subscribe,
        ensures
            status == self->status,
    {
        match self {
            Ack::Subscribe { status, .. } => status,
            _ => Vec::new(),
        }
    }
}

/// Whether this side has closed the connection, and how.
#[derive(Clone, Copy, Debug, PartialEq, Eq, Structural)]
pub enum Link {
    /// Not closed by this side.
    Open,
    /// Closed gracefully: pending writes may still be flushed.
    Closed,
    /// Closed by force.
    ForceClosed,
}

/// The pools from which the one-shot channels of a connection are drawn.
pub struct MqttSinkPool {
    /// Channels that carry an acknowledgement to the caller that awaits it.
    pub queue: Pool<Ack>,
    /// Channels that tell a caller that credit was freed.
    pub waiters: Pool<()>,
}

impl MqttSinkPool {
    /// Two empty pools.
    pub fn new() -> Self {
        MqttSinkPool {
            queue: ntex::channel::pool::new(),
            waiters: ntex::channel::pool::new(),
        }
    }
}

impl Clone for MqttSinkPool {
    /// Another handle on the same two pools.
    fn clone(&self) -> Self {
        MqttSinkPool { queue: self.queue.clone(), waiters: self.waiters.clone() }
    }
}

/// What the bookkeeping answers to a request to send.
#[derive(Clone, Copy, Debug, PartialEq, Eq, Structural)]
pub enum Verdict {
    /// The connection is closed.
    Closed,
    /// No credit is left: the caller has to wait.
    Wait,
    /// The packet identifier that the caller asked for is in flight.
    InUse,
    /// The request may be sent under this packet identifier.
    Granted(u16),
}

/// A [`Verdict`] together with the channel that the caller is to await.
pub enum Reservation {
    /// The connection is closed.
    Closed,
    /// No credit is left: the channel tells when some was freed.
    Wait(Receiver<()>),
    /// The packet identifier that the caller asked for is in flight.
    InUse,
    /// The request is recorded under this packet identifier: the channel
    /// delivers its acknowledgement.
    Granted(u16, Receiver<Ack>),
}

impl Reservation {
    /// The answer without its channel.
    pub open spec fn verdict(&self) -> Verdict {
        match self {
            Reservation::Closed => Verdict::Closed,
            Reservation::Wait(_) => Verdict::Wait,
            Reservation::InUse => Verdict::InUse,
            Reservation::Granted(id, _) => Verdict::Granted(*id),
        }
    }
}

/// The mathematical content of [`MqttShared`].
#[verifier::ext_equal]
pub struct SharedView {
    /// Whether this side has closed the connection.
    pub link: Link,
    /// Receive maximum of the peer: how many requests may be in flight.
    pub cap: nat,
    /// The requests in flight, by packet identifier, each with the shape of
    /// the acknowledgement it expects.
    pub inflight: Map<u16, AckType>,
    /// The packet identifiers in flight, in the order they were sent.
    pub order: Seq<u16>,
    /// The callers that wait for credit, first come first.
    pub waiters: Seq<Sender<()>>,
    /// The packet identifier that the allocator handed out last, or zero.
    pub last_id: u16,
}

impl SharedView {
    /// The state of a fresh connection.
    pub open spec fn new(cap: nat) -> SharedView {
        SharedView {
            link: Link::Open,
            cap,
            inflight: Map::empty(),
            order: Seq::empty(),
            waiters: Seq::empty(),
            last_id: 0,
        }
    }

    /// The invariants of the bookkeeping: both collections hold the same
    /// identifiers, none twice and none zero, and no more than the peer
    /// allows.
    pub open spec fn wf(self) -> bool {
        &&& self.inflight.dom().finite()
        &&& self.order.no_duplicates()
        &&& forall|id: u16| #[trigger] self.inflight.contains_key(id) <==> self.order.contains(id)
        &&& self.inflight.len() == self.order.len()
        &&& !self.inflight.contains_key(0)
        &&& self.order.len() <= self.cap <= 65535
    }

    /// Whether another request may be sent.
    pub open spec fn has_credit(self) -> bool {
        self.order.len() < self.cap
    }

    /// How many more requests may be sent.
    pub open spec fn credit(self) -> nat {
        (self.cap - self.order.len()) as nat
    }

    /// Whether every identifier from `lo` up to and including `hi` is in flight.
    pub open spec fn all_taken(self, lo: int, hi: int) -> bool {
        forall|id: u16| lo <= id <= hi ==> #[trigger] self.inflight.contains_key(id)
    }

    /// Whether `id` is the identifier that the allocator hands out next: the
    /// first one after `last_id` that is not in flight, where 1 follows 65535.
    pub open spec fn is_next_free(self, id: u16) -> bool {
        &&& id != 0
        &&& !self.inflight.contains_key(id)
        &&& if id > self.last_id {
            self.all_taken(self.last_id + 1, id - 1)
        } else {
            self.all_taken(self.last_id + 1, 65535) && self.all_taken(1, id - 1)
        }
    }

    /// Whether every identifier from 1 to 65535 is in flight.
    pub open spec fn exhausted(self) -> bool {
        self.all_taken(1, 65535)
    }

    /// The state after the allocator handed out `id`.
    pub open spec fn allocated(self, id: u16) -> SharedView {
        SharedView { last_id: id, ..self }
    }

    /// The state after a request with identifier `id` was sent that expects
    /// an acknowledgement of shape `tp`.
    pub open spec fn registered(self, id: u16, tp: AckType) -> SharedView {
        SharedView { inflight: self.inflight.insert(id, tp), order: self.order.push(id), ..self }
    }

    /// The state after a caller joined the queue for credit with `waiter`.
    pub open spec fn queued(self, waiter: Sender<()>) -> SharedView {
        SharedView { waiters: self.waiters.push(waiter), ..self }
    }

    /// Whether `verdict` is the answer to a request to send, where `open`
    /// says whether the connection is open and `wanted` is the packet
    /// identifier that the caller asks for, or zero for any.
    pub open spec fn answers(self, open: bool, wanted: u16, verdict: Verdict) -> bool {
        match verdict {
            Verdict::Closed => !open,
            Verdict::Wait => open && !self.has_credit(),
            Verdict::InUse => open && self.has_credit() && wanted != 0
                && self.inflight.contains_key(wanted),
            Verdict::Granted(id) => open && self.has_credit() && if wanted != 0 {
                id == wanted && !self.inflight.contains_key(wanted)
            } else {
                self.is_next_free(id)
            },
        }
    }

    /// The state after a request to send was answered with `verdict`, for a
    /// request that expects an acknowledgement of shape `tp`. `waiter` is
    /// the channel that joins the queue if the caller has to wait.
    pub open spec fn answered(
        self,
        wanted: u16,
        tp: AckType,
        verdict: Verdict,
        waiter: Sender<()>,
    ) -> SharedView {
        match verdict {
            Verdict::Closed => self,
            Verdict::InUse => self,
            Verdict::Wait => self.queued(waiter),
            Verdict::Granted(id) => if wanted == 0 {
                self.allocated(id).registered(id, tp)
            } else {
                self.registered(id, tp)
            },
        }
    }

    /// The state after the bookkeeping of `id` was taken back.
    pub open spec fn unregistered(self, id: u16) -> SharedView {
        SharedView {
            inflight: self.inflight.remove(id),
            order: if self.order.contains(id) {
                self.order.remove(self.order.index_of(id))
            } else {
                self.order
            },
            ..self
        }
    }

    /// The state after the first `woken` waiters left the queue.
    pub open spec fn woken(self, woken: int) -> SharedView {
        SharedView { waiters: self.waiters.skip(woken), ..self }
    }

    /// The state after the request at the head of the order was acknowledged
    /// and the first `woken` waiters left the queue.
    pub open spec fn acked(self, woken: int) -> SharedView {
        SharedView {
            inflight: self.inflight.remove(self.order[0]),
            order: self.order.skip(1),
            ..self
        }.woken(woken)
    }

    /// The state after this side closed the connection: nothing is in flight
    /// and nobody waits. A connection that was closed before keeps its way of
    /// closing.
    pub open spec fn closed(self, how: Link) -> SharedView {
        SharedView {
            link: if self.link is Open {
                how
            } else {
                self.link
            },
            inflight: Map::empty(),
            order: Seq::empty(),
            waiters: Seq::empty(),
            ..self
        }
    }

    /// What the bookkeeping answers to the acknowledgement `pkt`: success
    /// when `pkt` is for the request that was sent first and has the shape
    /// that this request expects, and otherwise the protocol error.
    pub open spec fn ack_verdict(self, pkt: Ack) -> Result<(), ProtocolError> {
        if self.order.len() == 0 || self.order[0] != pkt.spec_packet_id() {
            Err(ProtocolError::PacketIdMismatch)
        } else if self.inflight[pkt.spec_packet_id()] != pkt.ack_type() {
            Err(
                ProtocolError::Unexpected(
                    pkt.spec_packet_type(),
                    self.inflight[pkt.spec_packet_id()].spec_name(),
                ),
            )
        } else {
            Ok(())
        }
    }
}

/// The state that the sink, the dispatcher and the session of one connection
/// share.
pub struct MqttShared {
    state: State,
    pool: MqttSinkPool,
    link: Link,
    cap: usize,
    inflight: HashMap<u16, (Sender<Ack>, AckType)>,
    inflight_order: VecDeque<u16>,
    waiters: VecDeque<Sender<()>>,
    inflight_idx: u16,
}

impl View for MqttShared {
    type V = SharedView;

    closed spec fn view(&self) -> SharedView {
        SharedView {
            link: self.link,
            cap: self.cap as nat,
            inflight: self.inflight@.map_values(|entry: (Sender<Ack>, AckType)| entry.1),
            order: self.inflight_order@,
            waiters: self.waiters@,
            last_id: self.inflight_idx,
        }
    }
}

impl MqttShared {
    /// The invariants of the bookkeeping hold.
    pub open spec fn wf(&self) -> bool {
        self@.wf()
    }

    /// The channel on which the caller that sent `id` awaits its
    /// acknowledgement.
    pub closed spec fn reply_to(&self, id: u16) -> Sender<Ack> {
        self.inflight@[id].0
    }

    /// The state of a connection on which nothing was sent yet, with the
    /// receive maximum `cap` of the peer.
    pub fn new(state: State, pool: MqttSinkPool, cap: u16) -> (shared: Self)
        ensures
            shared.wf(),
            shared@ == SharedView::new(cap as nat),
    {
        let shared = MqttShared {
            state,
            pool,
            link: Link::Open,
            cap: cap as usize,
            inflight: HashMap::new(),
            inflight_order: VecDeque::new(),
            waiters: VecDeque::new(),
            inflight_idx: 0,
        };
        assert(shared@.inflight =~= Map::empty());
        assert(shared@.order =~= Seq::empty());
        assert(shared@.waiters =~= Seq::empty());
        shared
    }

    /// Whether another request may be sent.
    pub fn has_credit(&self) -> (free: bool)
        requires
            self.wf(),
        ensures
            free == self@.has_credit(),
    {
        self.inflight_order.len() < self.cap
    }

    /// How many more requests may be sent.
    pub fn credit(&self) -> (free: usize)
        requires
            self.wf(),
        ensures
            free == self@.credit(),
    {
        self.cap - self.inflight_order.len()
    }

    /// Hands out the next packet identifier: the first one after the last
    /// that is not in flight, where 1 follows 65535 and zero is skipped.
    /// There is none when all 65535 identifiers are in flight.
    pub fn next_id(&mut self) -> (id: Option<u16>)
        requires
            old(self).wf(),
        ensures
            final(self).wf(),
            match id {
                Some(v) => old(self)@.is_next_free(v) && final(self)@ == old(self)@.allocated(v),
                None => old(self)@.exhausted() && final(self)@ == old(self)@,
            },
    {
        let start: u16 = self.inflight_idx;
        let mut cand: u16 = start;
        while cand < u16::MAX
            invariant
                start <= cand,
                start == self.inflight_idx,
                *self == *old(self),
                self.wf(),
                self@.all_taken(start + 1, cand as int),
            decreases u16::MAX - cand,
        {
            cand = cand + 1;
            if !self.inflight.contains_key(&cand) {
                self.inflight_idx = cand;
                return Some(cand);
            }
        }
        cand = 0;
        while cand < start
            invariant
                cand <= start,
                start == self.inflight_idx,
                *self == *old(self),
                self.wf(),
                self@.all_taken(start + 1, 65535),
                self@.all_taken(1, cand as int),
            decreases start - cand,
        {
            cand = cand + 1;
            if !self.inflight.contains_key(&cand) {
                self.inflight_idx = cand;
                return Some(cand);
            }
        }
        None
    }

    /// Whether requests can still be sent: this side has not closed the
    /// connection, and the transport reports that it is open.
    pub fn is_open(&self) -> (open: bool)
        ensures
            open ==> self@.link is Open,
    {
        match self.link {
            Link::Open => self.is_open_when(self.state.is_open()),
            _ => false,
        }
    }

    /// Closes the connection gracefully and drops all bookkeeping: every
    /// caller that awaits an acknowledgement or credit sees its channel
    /// closed. Closing again changes nothing more.
    pub fn close(&mut self)
        requires
            old(self).wf(),
        ensures
            final(self).wf(),
            final(self)@ == old(self)@.closed(Link::Closed),
    {
        match self.link {
            Link::Open => {
                if self.state.is_open() {
                    self.state.close();
                }
                self.link = Link::Closed;
            },
            _ => {},
        }
        self.drain();
    }

    /// Closes the connection without waiting for responses that are not
    /// complete, and drops all bookkeeping as [`MqttShared::close`] does.
    pub fn force_close(&mut self)
        requires
            old(self).wf(),
        ensures
            final(self).wf(),
            final(self)@ == old(self)@.closed(Link::ForceClosed),
    {
        match self.link {
            Link::Open => {
                if self.state.is_open() {
                    self.state.force_close();
                }
                self.link = Link::ForceClosed;
            },
            _ => {},
        }
        self.drain();
    }

    /// Drops every channel that the bookkeeping holds.
    fn drain(&mut self)
        requires
            old(self).wf(),
        ensures
            final(self).wf(),
            final(self)@ == old(self)@.closed(old(self)@.link),
    {
        self.inflight.clear();
        self.inflight_order.clear();
        self.waiters.clear();
        assert(self@.inflight =~= Map::empty());
    }

    /// Queues the caller behind those that already wait for credit, and
    /// returns the channel on which it is told that credit was freed.
    pub fn wait_for_credit(&mut self) -> (rx: Receiver<()>)
        requires
            old(self).wf(),
        ensures
            final(self).wf(),
            final(self)@ == old(self)@.queued(final(self)@.waiters.last()),
    {
        let (tx, rx) = self.pool.waiters.channel();
        self.waiters.push_back(tx);
        rx
    }

    /// Records that a request with identifier `id` is in flight and expects
    /// an acknowledgement of shape `tp`. Returns the channel on which the
    /// acknowledgement will be delivered.
    pub fn register(&mut self, id: u16, tp: AckType) -> (rx: Receiver<Ack>)
        requires
            old(self).wf(),
            id != 0,
            !old(self)@.inflight.contains_key(id),
            old(self)@.has_credit(),
        ensures
            final(self).wf(),
            final(self)@ == old(self)@.registered(id, tp),
    {
        let (tx, rx) = self.pool.queue.channel();
        self.inflight.insert(id, (tx, tp));
        self.inflight_order.push_back(id);
        proof {
            assert(self@.inflight =~= old(self)@.inflight.insert(id, tp));
            lemma_push_fresh(old(self)@.order, id);
        }
        rx
    }

    /// Answers a request to send, given whether the connection is open.
    ///
    /// `wanted` is the packet identifier that the caller asks for, or zero
    /// for the next free one; `tp` is the shape of the acknowledgement that
    /// the request expects. On a closed connection nothing happens. Without
    /// credit the caller joins the queue of waiters. With credit the request
    /// is recorded, unless the identifier asked for is in flight.
    pub fn reserve_when(&mut self, open: bool, wanted: u16, tp: AckType) -> (answer: Reservation)
        requires
            old(self).wf(),
        ensures
            final(self).wf(),
            old(self)@.answers(open, wanted, answer.verdict()),
            final(self)@ == old(self)@.answered(
                wanted,
                tp,
                answer.verdict(),
                final(self)@.waiters.last(),
            ),
    {
        if !open {
            return Reservation::Closed;
        }
        if !self.has_credit() {
            return Reservation::Wait(self.wait_for_credit());
        }
        let id = if wanted == 0 {
            match self.next_id() {
                Some(id) => id,
                None => {
                    proof {
                        lemma_credit_leaves_an_id(old(self)@);
                    }
                    return Reservation::Wait(self.wait_for_credit());
                },
            }
        } else {
            if self.inflight.contains_key(&wanted) {
                return Reservation::InUse;
            }
            wanted
        };
        Reservation::Granted(id, self.register(id, tp))
    }

    /// Answers a request to send as [`MqttShared::reserve_when`] does, after
    /// asking the transport whether the connection is open. A connection
    /// that this side has closed counts as closed whatever the transport
    /// says.
    pub fn reserve(&mut self, wanted: u16, tp: AckType) -> (answer: Reservation)
        requires
            old(self).wf(),
        ensures
            final(self).wf(),
            old(self)@.answers(!(answer.verdict() is Closed), wanted, answer.verdict()),
            !(old(self)@.link is Open) ==> answer.verdict() is Closed,
            final(self)@ == old(self)@.answered(
                wanted,
                tp,
                answer.verdict(),
                final(self)@.waiters.last(),
            ),
    {
        let open = self.is_open();
        self.reserve_when(open, wanted, tp)
    }

    /// Takes back the bookkeeping of `id`, for a request that was recorded
    /// and then could not be written. Nothing changes if `id` is not in
    /// flight.
    pub fn unregister(&mut self, id: u16)
        requires
            old(self).wf(),
        ensures
            final(self).wf(),
            final(self)@ == old(self)@.unregistered(id),
    {
        if self.inflight.remove(&id).is_none() {
            assert(self@.inflight =~= old(self)@.inflight);
            return ;
        }
        assert(self@.inflight =~= old(self)@.inflight.remove(id));
        let ghost order = self.inflight_order@;
        let mut i: usize = 0;
        while i < self.inflight_order.len()
            invariant
                i <= self.inflight_order.len(),
                self.inflight_order@ == order,
                order.contains(id),
                forall|j: int| 0 <= j < i ==> order[j] != id,
                self@.inflight == old(self)@.inflight.remove(id),
                self@ == (SharedView { inflight: self@.inflight, ..old(self)@ }),
                old(self).wf(),
            decreases self.inflight_order.len() - i,
        {
            if self.inflight_order[i] == id {
                proof {
                    lemma_remove_at(order, i as int);
                }
                self.inflight_order.remove(i);
                return ;
            }
            i = i + 1;
        }
        proof {
            let j = order.index_of(id);
            assert(order[j] == id);
        }
    }

    /// Takes the request at the head of the order out of the bookkeeping if
    /// `pkt` acknowledges it, and returns the channel on which its caller
    /// waits. Closes the connection otherwise.
    fn take_head(&mut self, pkt: &Ack) -> (head: Result<Sender<Ack>, ProtocolError>)
        requires
            old(self).wf(),
        ensures
            final(self).wf(),
            match head {
                Ok(tx) => {
                    &&& old(self)@.ack_verdict(*pkt) is Ok
                    &&& tx == old(self).reply_to(pkt.spec_packet_id())
                    &&& final(self)@ == old(self)@.acked(0)
                },
                Err(e) => {
                    &&& old(self)@.ack_verdict(*pkt) == Err::<(), ProtocolError>(e)
                    &&& final(self)@ == old(self)@.closed(Link::Closed)
                },
            },
    {
        let ghost order = self.inflight_order@;
        let id = pkt.packet_id();
        if self.inflight_order.len() == 0 || self.inflight_order[0] != id {
            self.close();
            return Err(ProtocolError::PacketIdMismatch);
        }
        proof {
            assert(order[0] == id);
            assert(order.contains(id));
            lemma_remove_at(order, 0);
            assert(order.remove(0) =~= order.skip(1));
        }
        let _ = self.inflight_order.pop_front();
        match self.inflight.remove(&id) {
            Some((tx, tp)) => {
                assert(self@.inflight =~= old(self)@.inflight.remove(id));
                assert(self@.waiters =~= old(self)@.waiters.skip(0));
                if pkt.is_match(tp) {
                    Ok(tx)
                } else {
                    let err = ProtocolError::Unexpected(pkt.packet_type(), tp.name());
                    self.close();
                    Err(err)
                }
            },
            None => {
                assert(false);
                Err(ProtocolError::PacketIdMismatch)
            },
        }
    }

    /// Tells the caller that has waited longest for credit that it may go
    /// on. A waiter that has given up is dropped and the next one is tried.
    /// Returns whether a waiter took the message.
    fn wake_waiter(&mut self) -> (woken: bool)
        requires
            old(self).wf(),
        ensures
            final(self).wf(),
            final(self)@.waiters.len() <= old(self)@.waiters.len(),
            final(self)@ == old(self)@.woken(
                old(self)@.waiters.len() - final(self)@.waiters.len(),
            ),
            old(self)@.waiters.len() > 0 ==> final(self)@.waiters.len() < old(self)@.waiters.len(),
            !woken ==> final(self)@.waiters.len() == 0,
    {
        assert(self@.waiters =~= old(self)@.waiters.skip(0));
        while self.waiters.len() > 0
            invariant
                self.wf(),
                self@.waiters.len() <= old(self)@.waiters.len(),
                self@ == old(self)@.woken(old(self)@.waiters.len() - self@.waiters.len()),
            decreases self.waiters.len(),
        {
            let ghost before = self@.waiters;
            let next = self.waiters.pop_front();
            assert(self@.waiters =~= before.skip(1));
            assert(self@.waiters =~= old(self)@.waiters.skip(
                old(self)@.waiters.len() - self@.waiters.len(),
            ));
            match next {
                Some(tx) => {
                    if tx.send(()).is_ok() {
                        return true;
                    }
                },
                None => {},
            }
        }
        false
    }

    /// Takes in an acknowledgement that the peer sent.
    ///
    /// The acknowledgement must be for the request that was sent first and
    /// have the shape that this request expects. It is then delivered to the
    /// caller that awaits it, the request leaves the bookkeeping, and the
    /// caller that has waited longest for credit is told to go on (callers
    /// that have given up leave the queue unheard). Any other
    /// acknowledgement closes the connection and is answered with the
    /// protocol error.
    pub fn pkt_ack(&mut self, pkt: Ack) -> (verdict: Result<(), ProtocolError>)
        requires
            old(self).wf(),
        ensures
            final(self).wf(),
            verdict == old(self)@.ack_verdict(pkt),
            verdict is Ok ==> {
                &&& final(self)@.waiters.len() <= old(self)@.waiters.len()
                &&& old(self)@.waiters.len() > 0 ==> final(self)@.waiters.len() < old(
                    self,
                )@.waiters.len()
                &&& final(self)@ == old(self)@.acked(
                    old(self)@.waiters.len() - final(self)@.waiters.len(),
                )
            },
            verdict is Err ==> final(self)@ == old(self)@.closed(Link::Closed),
    {
        match self.take_head(&pkt) {
            Ok(tx) => {
                let _ = tx.send(pkt);
                let _ = self.wake_waiter();
                Ok(())
            },
            Err(e) => Err(e),
        }
    }

    /// Whether requests can still be sent, given what the transport
    /// reports: they can when this side has not closed the connection and
    /// the transport says that it is open.
    pub fn is_open_when(&self, transport: bool) -> (open: bool)
        ensures
            open == (self@.link is Open && transport),
    {
        match self.link {
            Link::Open => transport,
            _ => false,
        }
    }
}

/// While credit is left, some packet identifier is free: the allocator
/// never runs dry before the receive maximum of the peer is reached.
pub proof fn lemma_credit_leaves_an_id(v: SharedView)
    requires
        v.wf(),
        v.has_credit(),
    ensures
        !v.exhausted(),
{
    if v.exhausted() {
        let ids = vstd::set_lib::set_int_range(1, 65536);
        let narrow = |i: int| i as u16;
        vstd::set_lib::lemma_int_range(1, 65536);
        assert(vstd::relations::injective_on(narrow, ids));
        let taken = ids.map(narrow);
        vstd::set_lib::lemma_map_size(ids, taken, narrow);
        assert forall|id: u16| taken.contains(id) implies v.inflight.dom().contains(id) by {
            let i = choose|i: int| ids.contains(i) && narrow(i) == id;
            assert(1 <= id <= 65535);
            assert(v.inflight.contains_key(id));
        }
        vstd::set_lib::lemma_len_subset(taken, v.inflight.dom());
    }
}

/// The allocator's choice is determined: no two identifiers are both the
/// next free one.
pub proof fn lemma_next_free_unique(v: SharedView, a: u16, b: u16)
    requires
        v.is_next_free(a),
        v.is_next_free(b),
    ensures
        a == b,
{
    if a < b {
        assert(v.inflight.contains_key(a));
    } else if b < a {
        assert(v.inflight.contains_key(b));
    }
}

/// Appending an element that a duplicate-free sequence does not hold keeps it
/// duplicate-free, and the result holds what it held and the new element.
pub proof fn lemma_push_fresh(s: Seq<u16>, id: u16)
    requires
        s.no_duplicates(),
        !s.contains(id),
    ensures
        s.push(id).no_duplicates(),
        forall|other: u16| #[trigger] s.push(id).contains(other) <==> (other == id || s.contains(other)),
{
    let t = s.push(id);
    assert forall|other: u16| #[trigger] t.contains(other) <==> (other == id || s.contains(other)) by {
        if other == id {
            assert(t[s.len() as int] == id);
        }
        if s.contains(other) {
            let i = s.index_of(other);
            assert(t[i] == other);
        }
    }
}

/// Taking the element at `i` out of a duplicate-free sequence leaves it
/// duplicate-free, and the result holds what it held but that element.
pub proof fn lemma_remove_at(s: Seq<u16>, i: int)
    requires
        s.no_duplicates(),
        0 <= i < s.len(),
    ensures
        s.remove(i).no_duplicates(),
        s.remove(i).len() == s.len() - 1,
        s.index_of(s[i]) == i,
        forall|other: u16| #[trigger] s.remove(i).contains(other) <==> (other != s[i] && s.contains(other)),
{
    let t = s.remove(i);
    assert forall|a: int, b: int| 0 <= a < t.len() && 0 <= b < t.len() && a != b implies t[a] != t[b] by {
        let a0 = if a < i { a } else { a + 1 };
        let b0 = if b < i { b } else { b + 1 };
        assert(t[a] == s[a0]);
        assert(t[b] == s[b0]);
    }
    assert forall|other: u16| #[trigger] t.contains(other) <==> (other != s[i] && s.contains(other)) by {
        if t.contains(other) {
            let a = t.index_of(other);
            let a0 = if a < i { a } else { a + 1 };
            assert(t[a] == s[a0]);
            assert(s[a0] == other);
        }
        if other != s[i] && s.contains(other) {
            let b = s.index_of(other);
            assert(b != i);
            let b1 = if b < i { b } else { b - 1 };
            assert(t[b1] == other);
        }
    }
    let j = s.index_of(s[i]);
    assert(s[j] == s[i]);
}

} // verus!
