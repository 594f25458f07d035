//! What holds of the bookkeeping over several steps, stated over
//! [`SharedView`] and proved from its transitions.
use crate::error::ProtocolError;
use crate::shared::{lemma_push_fresh, lemma_remove_at, Ack, AckType, Link, SharedView, Verdict};
use vstd::prelude::*;

verus! {

/// The state after requests with the packet identifiers `ids` were sent in
/// turn, each expecting an acknowledgement of shape `tp`.
pub open spec fn sent_all(v: SharedView, ids: Seq<u16>, tp: AckType) -> SharedView
    decreases ids.len(),
{
    if ids.len() == 0 {
        v
    } else {
        sent_all(v, ids.drop_last(), tp).registered(ids.last(), tp)
    }
}

/// The state after as many requests as `woken` is long were acknowledged in
/// the order they were sent, where `woken[k]` waiters left the queue at the
/// acknowledgement `k`.
pub open spec fn acked_all(v: SharedView, woken: Seq<int>) -> SharedView
    decreases woken.len(),
{
    if woken.len() == 0 {
        v
    } else {
        acked_all(v, woken.drop_last()).acked(woken.last())
    }
}

/// Whether every request in flight expects an acknowledgement of shape `tp`.
pub open spec fn all_expect(v: SharedView, tp: AckType) -> bool {
    forall|id: u16| #[trigger] v.inflight.contains_key(id) ==> v.inflight[id] == tp
}

/// Sending a request keeps the bookkeeping well formed: with credit, and
/// with a packet identifier that is neither zero nor in flight, the request
/// joins the end of the order and takes one unit of credit.
pub proof fn lemma_registered(v: SharedView, id: u16, tp: AckType)
    requires
        v.wf(),
        v.has_credit(),
        id != 0,
        !v.inflight.contains_key(id),
    ensures
        v.registered(id, tp).wf(),
        v.registered(id, tp).credit() == v.credit() - 1,
        v.registered(id, tp).order == v.order.push(id),
        v.registered(id, tp).inflight[id] == tp,
        forall|t: AckType| all_expect(v, t) && t == tp ==> all_expect(v.registered(id, tp), t),
{
    lemma_push_fresh(v.order, id);
}

/// The acknowledgement of the request that was sent first, in the shape this
/// request expects, is accepted.
pub proof fn lemma_head_ack_accepted(v: SharedView, pkt: Ack)
    requires
        v.wf(),
        v.order.len() > 0,
        pkt.spec_packet_id() == v.order[0],
        pkt.ack_type() == v.inflight[v.order[0]],
    ensures
        v.ack_verdict(pkt) is Ok,
{
}

/// When the request that was sent first is acknowledged it leaves the
/// bookkeeping, which stays well formed, and its unit of credit is free
/// again.
pub proof fn lemma_acked(v: SharedView, woken: int)
    requires
        v.wf(),
        v.order.len() > 0,
    ensures
        v.acked(woken).wf(),
        v.acked(woken).credit() == v.credit() + 1,
        v.acked(woken).order == v.order.skip(1),
        forall|t: AckType| all_expect(v, t) ==> all_expect(v.acked(woken), t),
{
    let head = v.order[0];
    assert(v.order.contains(head));
    lemma_remove_at(v.order, 0);
    assert(v.order.remove(0) =~= v.order.skip(1));
}

/// For any sequence of requests that are sent and then acknowledged in the
/// order they were sent, every acknowledgement is accepted and the credit
/// returns to what it was before the first send.
///
/// The requests start from a state with nothing in flight; their packet
/// identifiers `ids` are nonzero and distinct and fit in the credit; the
/// acknowledgement `acks[k]` is for `ids[k]`, has the shape that the
/// requests expect, and wakes `woken[k]` waiters.
pub proof fn lemma_in_order_acks_restore_credit(
    v: SharedView,
    ids: Seq<u16>,
    tp: AckType,
    acks: Seq<Ack>,
    woken: Seq<int>,
)
    requires
        v.wf(),
        v.order.len() == 0,
        ids.no_duplicates(),
        forall|i: int| 0 <= i < ids.len() ==> ids[i] != 0,
        ids.len() <= v.credit(),
        acks.len() == ids.len(),
        forall|k: int|
            0 <= k < ids.len() ==> (#[trigger] acks[k]).spec_packet_id() == ids[k]
                && acks[k].ack_type() == tp,
        woken.len() == ids.len(),
    ensures
        sent_all(v, ids, tp).wf(),
        sent_all(v, ids, tp).order == ids,
        sent_all(v, ids, tp).credit() == v.credit() - ids.len(),
        forall|k: int|
            0 <= k < ids.len() ==> (#[trigger] acked_all(
                sent_all(v, ids, tp),
                woken.take(k),
            )).ack_verdict(acks[k]) is Ok,
        acked_all(sent_all(v, ids, tp), woken).wf(),
        acked_all(sent_all(v, ids, tp), woken).order.len() == 0,
        acked_all(sent_all(v, ids, tp), woken).credit() == v.credit(),
{
    lemma_sent_all(v, ids, tp);
    let s = sent_all(v, ids, tp);
    assert(s.order =~= ids);
    assert forall|k: int| 0 <= k < ids.len() implies (#[trigger] acked_all(
        s,
        woken.take(k),
    )).ack_verdict(acks[k]) is Ok by {
        lemma_acked_all(s, tp, woken.take(k));
        let at = acked_all(s, woken.take(k));
        assert(at.order[0] == ids[k]);
        assert(at.order.contains(ids[k]));
        assert(at.inflight.contains_key(ids[k]));
        assert(acks[k].spec_packet_id() == ids[k]);
        lemma_head_ack_accepted(at, acks[k]);
    }
    assert(woken.take(woken.len() as int) =~= woken);
    lemma_acked_all(s, tp, woken);
}

/// What [`sent_all`] leaves: the identifiers join the order as they come,
/// each takes one unit of credit, and every request expects the same shape
/// of acknowledgement if those before did.
pub proof fn lemma_sent_all(v: SharedView, ids: Seq<u16>, tp: AckType)
    requires
        v.wf(),
        all_expect(v, tp),
        ids.no_duplicates(),
        forall|i: int| 0 <= i < ids.len() ==> ids[i] != 0 && !v.inflight.contains_key(ids[i]),
        ids.len() <= v.credit(),
    ensures
        sent_all(v, ids, tp).wf(),
        sent_all(v, ids, tp).order == v.order + ids,
        sent_all(v, ids, tp).credit() == v.credit() - ids.len(),
        sent_all(v, ids, tp).cap == v.cap,
        all_expect(sent_all(v, ids, tp), tp),
    decreases ids.len(),
{
    if ids.len() == 0 {
        assert(v.order + ids =~= v.order);
    } else {
        let front = ids.drop_last();
        let id = ids.last();
        lemma_sent_all(v, front, tp);
        let before = sent_all(v, front, tp);
        assert(!before.inflight.contains_key(id)) by {
            if before.order.contains(id) {
                let i = before.order.index_of(id);
                if i < v.order.len() {
                    assert(v.order[i] == id);
                    assert(v.order.contains(id));
                } else {
                    assert(front[i - v.order.len()] == id);
                    assert(ids[i - v.order.len()] == id);
                }
            }
        }
        lemma_registered(before, id, tp);
        assert(before.order.push(id) =~= v.order + ids);
    }
}

/// What [`acked_all`] leaves when every request expects the shape `tp`:
/// the first requests leave the order, and each frees one unit of credit.
pub proof fn lemma_acked_all(v: SharedView, tp: AckType, woken: Seq<int>)
    requires
        v.wf(),
        all_expect(v, tp),
        woken.len() <= v.order.len(),
    ensures
        acked_all(v, woken).wf(),
        all_expect(acked_all(v, woken), tp),
        acked_all(v, woken).order == v.order.skip(woken.len() as int),
        acked_all(v, woken).credit() == v.credit() + woken.len(),
    decreases woken.len(),
{
    if woken.len() == 0 {
        assert(v.order.skip(0) =~= v.order);
    } else {
        let front = woken.drop_last();
        lemma_acked_all(v, tp, front);
        let before = acked_all(v, front);
        lemma_acked(before, woken.last());
        assert(before.order.skip(1) =~= v.order.skip(woken.len() as int));
    }
}

/// An acknowledgement that is not for the request that was sent first is
/// refused as a mismatch, whatever else is in flight, and the connection is
/// left closed with nothing in flight and nobody waiting.
pub proof fn lemma_out_of_order_ack_closes(v: SharedView, pkt: Ack)
    requires
        v.wf(),
        v.order.len() == 0 || pkt.spec_packet_id() != v.order[0],
    ensures
        v.ack_verdict(pkt) == Err::<(), ProtocolError>(ProtocolError::PacketIdMismatch),
        v.closed(Link::Closed).wf(),
        !(v.closed(Link::Closed).link is Open),
        v.closed(Link::Closed).order.len() == 0,
        v.closed(Link::Closed).inflight == Map::<u16, AckType>::empty(),
        v.closed(Link::Closed).waiters.len() == 0,
{
}

/// An acknowledgement for the request that was sent first, but of another
/// shape than this request expects, is refused as unexpected: the error
/// names the packet type that arrived and the acknowledgement that was
/// expected.
pub proof fn lemma_mistyped_ack_is_unexpected(v: SharedView, pkt: Ack)
    requires
        v.wf(),
        v.order.len() > 0,
        pkt.spec_packet_id() == v.order[0],
        pkt.ack_type() != v.inflight[v.order[0]],
    ensures
        v.ack_verdict(pkt) == Err::<(), ProtocolError>(
            ProtocolError::Unexpected(pkt.spec_packet_type(), v.inflight[v.order[0]].spec_name()),
        ),
{
}

/// Without credit a request on an open connection is made to wait, and it
/// joins the queue behind all that wait already.
pub proof fn lemma_no_credit_waits(
    v: SharedView,
    wanted: u16,
    tp: AckType,
    verdict: Verdict,
    waiter: ntex::channel::pool::Sender<()>,
)
    requires
        v.wf(),
        v.credit() == 0,
        v.answers(true, wanted, verdict),
    ensures
        verdict is Wait,
        v.answered(wanted, tp, verdict, waiter).waiters == v.waiters.push(waiter),
        v.answered(wanted, tp, verdict, waiter).order == v.order,
{
}

/// An accepted acknowledgement takes waiters from the front of the queue
/// only: those that stay keep their order, and the one that waited longest
/// among them is the one that came right after those that left.
pub proof fn lemma_ack_wakes_in_order(v: SharedView, woken: int, k: int)
    requires
        0 <= woken <= v.waiters.len(),
        0 <= k < v.waiters.len() - woken,
    ensures
        v.acked(woken).waiters.len() == v.waiters.len() - woken,
        v.acked(woken).waiters[k] == v.waiters[woken + k],
{
}

/// Closing drops every request in flight and every waiter, so that no
/// packet identifier stays taken and the whole credit is free; closing
/// again changes nothing.
pub proof fn lemma_close_drains(v: SharedView, how: Link, again: Link)
    requires
        v.wf(),
        !(how is Open),
    ensures
        v.closed(how).wf(),
        !(v.closed(how).link is Open),
        v.closed(how).order.len() == 0,
        forall|id: u16| !v.closed(how).inflight.contains_key(id),
        v.closed(how).waiters.len() == 0,
        v.closed(how).credit() == v.cap,
        v.closed(how).closed(again) == v.closed(how),
{
}

/// The allocator never hands out zero nor an identifier in flight, and
/// after the identifier is recorded it is not handed out again while it
/// stays in flight.
pub proof fn lemma_allocated_id_is_fresh(v: SharedView, id: u16, tp: AckType, next: u16)
    requires
        v.wf(),
        v.has_credit(),
        v.is_next_free(id),
        v.allocated(id).registered(id, tp).is_next_free(next),
    ensures
        id != 0,
        !v.inflight.contains_key(id),
        v.allocated(id).registered(id, tp).wf(),
        next != id,
        next != 0,
{
    lemma_registered(v.allocated(id), id, tp);
}

} // verus!
