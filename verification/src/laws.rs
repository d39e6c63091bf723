//! The guarantees of the bridge, proved over the model that every
//! executable transition is pinned to.
//!
//! `deliver_all`, `drain_seq` and `after_drain` fold whole runs of callback
//! invocations and reads into one value, so each law speaks about every
//! sequence of events at once, not about a chosen scenario.

use vstd::prelude::*;
use crate::bridge::{
    close_step, connect_result_step, disconnect_step, finish_step, message_step, next_step,
    BridgeModel,
};
use crate::handle::{request_step, AckMode, HandleModel, RequestKind, RequestModel};
use crate::messages::EnvelopeModel;
use crate::session::{ConnectError, SessionError};
use crate::session_id::parse_u32_spec;

verus! {

/// The bridge after the message callback fired once per element of `msgs`,
/// in order.
pub open spec fn deliver_all(m: BridgeModel, msgs: Seq<EnvelopeModel>) -> BridgeModel
    decreases msgs.len(),
{
    if msgs.len() == 0 {
        m
    } else {
        deliver_all(message_step(m, msgs[0].topic, msgs[0].payload).0, msgs.drop_first())
    }
}

/// Every message that reads hand out, in the order they hand them out,
/// until the queue is empty.
pub open spec fn drain_seq(m: BridgeModel) -> Seq<EnvelopeModel>
    decreases m.queue.len(),
{
    if m.queue.len() == 0 {
        Seq::<EnvelopeModel>::empty()
    } else {
        seq![m.queue[0]] + drain_seq(next_step(m).0)
    }
}

/// The bridge once reads have emptied the queue.
pub open spec fn after_drain(m: BridgeModel) -> BridgeModel
    decreases m.queue.len(),
{
    if m.queue.len() == 0 {
        m
    } else {
        after_drain(next_step(m).0)
    }
}

/// Delivery keeps arrival order: while the session is connected and the
/// run of messages fits in the queue, the message callback extends the
/// queue by exactly those messages, in invocation order, and touches
/// nothing else.
pub proof fn lemma_fifo_delivery(m: BridgeModel, msgs: Seq<EnvelopeModel>)
    requires
        m.state is Connected,
        m.queue.len() + msgs.len() <= m.capacity,
    ensures
        deliver_all(m, msgs).queue == m.queue + msgs,
        deliver_all(m, msgs).state == m.state,
        deliver_all(m, msgs).signal == m.signal,
        deliver_all(m, msgs).capacity == m.capacity,
    decreases msgs.len(),
{
    if msgs.len() == 0 {
        assert(m.queue + msgs =~= m.queue);
    } else {
        let em = EnvelopeModel { topic: msgs[0].topic, payload: msgs[0].payload };
        assert(em =~= msgs[0]);
        let m1 = message_step(m, msgs[0].topic, msgs[0].payload).0;
        lemma_fifo_delivery(m1, msgs.drop_first());
        assert(m.queue.push(msgs[0]) + msgs.drop_first() =~= m.queue + msgs);
    }
}

/// Overflow loses only the newest: however long the run of message-callback
/// invocations, the queue ends up holding the old backlog followed by the
/// longest prefix of the run that fits. Everything past that prefix is
/// rejected outright — nothing is reordered, substituted or silently
/// overwritten.
pub proof fn lemma_delivery_overflow(m: BridgeModel, msgs: Seq<EnvelopeModel>)
    requires
        m.state is Connected,
        m.queue.len() <= m.capacity,
    ensures
        ({
            let room = m.capacity - m.queue.len();
            let kept = if msgs.len() <= room {
                msgs.len() as int
            } else {
                room
            };
            deliver_all(m, msgs).queue == m.queue + msgs.take(kept)
        }),
        deliver_all(m, msgs).state == m.state,
    decreases msgs.len(),
{
    let room = m.capacity - m.queue.len();
    let kept = if msgs.len() <= room {
        msgs.len() as int
    } else {
        room
    };
    if msgs.len() == 0 {
        assert(m.queue + msgs.take(kept) =~= m.queue);
    } else if m.queue.len() < m.capacity {
        let em = EnvelopeModel { topic: msgs[0].topic, payload: msgs[0].payload };
        assert(em =~= msgs[0]);
        let m1 = message_step(m, msgs[0].topic, msgs[0].payload).0;
        lemma_delivery_overflow(m1, msgs.drop_first());
        let room1 = m1.capacity - m1.queue.len();
        let kept1 = if msgs.drop_first().len() <= room1 {
            msgs.drop_first().len() as int
        } else {
            room1
        };
        assert(m.queue.push(msgs[0]) + msgs.drop_first().take(kept1) =~= m.queue + msgs.take(kept));
    } else {
        lemma_delivery_overflow(m, msgs.drop_first());
        assert(m.queue + msgs.drop_first().take(0) =~= m.queue + msgs.take(0));
    }
}

/// Consumption keeps queue order: reads hand the queue back front to back,
/// exactly as it stands.
pub proof fn lemma_fifo_consumption(m: BridgeModel)
    ensures
        drain_seq(m) == m.queue,
    decreases m.queue.len(),
{
    if m.queue.len() == 0 {
        assert(drain_seq(m) =~= m.queue);
    } else {
        lemma_fifo_consumption(next_step(m).0);
        assert(seq![m.queue[0]] + m.queue.drop_first() =~= m.queue);
    }
}

/// FIFO end to end: for every sequence of message-callback invocations on a
/// connected session with room for them, `next` returns exactly the queued
/// backlog followed by those messages, in invocation order — no reordering,
/// no loss, no duplication.
pub proof fn lemma_fifo(m: BridgeModel, msgs: Seq<EnvelopeModel>)
    requires
        m.state is Connected,
        m.queue.len() + msgs.len() <= m.capacity,
    ensures
        drain_seq(deliver_all(m, msgs)) == m.queue + msgs,
{
    lemma_fifo_delivery(m, msgs);
    lemma_fifo_consumption(deliver_all(m, msgs));
}

/// Draining empties the queue and moves nothing else.
proof fn lemma_after_drain_state(m: BridgeModel)
    ensures
        after_drain(m).queue.len() == 0,
        after_drain(m).state == m.state,
    decreases m.queue.len(),
{
    if m.queue.len() > 0 {
        lemma_after_drain_state(next_step(m).0);
    }
}

/// A finished session never makes the reader wait: with the state
/// `Disconnected`, one read always returns something — the oldest queued
/// message while any remains, the `Disconnected` failure after.
pub proof fn lemma_next_never_waits(m: BridgeModel)
    requires
        m.state is Disconnected,
    ensures
        next_step(m).1 is Some,
        m.queue.len() > 0 ==> next_step(m).1 == Some(Ok::<EnvelopeModel, SessionError>(m.queue[0])),
        m.queue.len() == 0 ==> next_step(m).1 == Some(
            Err::<EnvelopeModel, SessionError>(SessionError::Disconnected),
        ),
{
}

/// A disconnect event loses nothing: the messages enqueued strictly before
/// it survive it, `next` still hands out every one of them in order, and
/// then — and only then — fails with `Disconnected`.
pub proof fn lemma_drain_after_disconnect(m: BridgeModel)
    requires
        m.state is Connected,
    ensures
        ({
            let md = disconnect_step(m).0;
            &&& md.queue == m.queue
            &&& drain_seq(md) == m.queue
            &&& next_step(after_drain(md)).1 == Some(
                Err::<EnvelopeModel, SessionError>(SessionError::Disconnected),
            )
        }),
{
    let md = disconnect_step(m).0;
    lemma_fifo_consumption(md);
    lemma_after_drain_state(md);
}

/// Teardown happens at most once: whatever state a bridge is in, once
/// `close` has run or a disconnect event has been observed, neither a
/// second `close` nor a disconnect event asks for another external
/// teardown call.
pub proof fn lemma_teardown_once(m: BridgeModel)
    ensures
        close_step(close_step(m).0).1 is None,
        close_step(disconnect_step(m).0).1 is None,
        disconnect_step(close_step(m).0).1 is None,
        disconnect_step(disconnect_step(m).0).1 is None,
{
}

/// A failed connect attempt: when the result callback reports failure, or
/// reports success with a malformed identifier, the attempt yields
/// `ConnectFailed`, the session ends at once, and no observation —
/// consuming the outcome again, subscribing, unsubscribing, closing, or a
/// disconnect event — ever produces a session identifier or a teardown
/// call.
pub proof fn lemma_connect_failure(
    m: BridgeModel,
    success: bool,
    raw_id: Seq<char>,
    ack: AckMode,
    kind: RequestKind,
    topic: Seq<char>,
)
    requires
        m.state is Pending,
        m.signal is Empty,
        success ==> parse_u32_spec(raw_id) is None,
    ensures
        ({
            let m1 = connect_result_step(m, success, raw_id);
            &&& m1.state is Disconnected
            &&& finish_step(m1).1 == Some(Err::<u32, ConnectError>(ConnectError::ConnectFailed))
            &&& finish_step(finish_step(m1).0).1 is None
            &&& close_step(m1).1 is None
            &&& disconnect_step(m1).1 is None
            &&& request_step(HandleModel { bridge: m1, ack }, kind, topic) == Err::<
                RequestModel,
                SessionError,
            >(SessionError::NotConnected)
        }),
{
}

/// The connect signal is single-use: once it is no longer empty, further
/// result callbacks change nothing at all, and the outcome can be consumed
/// at most once.
pub proof fn lemma_signal_single_use(m: BridgeModel, success: bool, raw_id: Seq<char>)
    requires
        !(m.signal is Empty),
    ensures
        connect_result_step(m, success, raw_id) == m,
        finish_step(finish_step(m).0).1 is None,
{
}

/// The queue bound is an invariant: a well-formed bridge stays well formed
/// under every callback and every operation — in particular, the message
/// callback never grows the queue past its capacity.
pub proof fn lemma_wf_preserved(
    m: BridgeModel,
    success: bool,
    raw_id: Seq<char>,
    topic: Seq<char>,
    payload: Seq<char>,
)
    requires
        m.wf(),
    ensures
        connect_result_step(m, success, raw_id).wf(),
        disconnect_step(m).0.wf(),
        message_step(m, topic, payload).0.wf(),
        next_step(m).0.wf(),
        finish_step(m).0.wf(),
        close_step(m).0.wf(),
{
}

/// `Disconnected` is terminal: no callback and no operation leaves it, so a
/// session once observed as over stays over.
pub proof fn lemma_disconnected_terminal(
    m: BridgeModel,
    success: bool,
    raw_id: Seq<char>,
    topic: Seq<char>,
    payload: Seq<char>,
)
    requires
        m.state is Disconnected,
    ensures
        connect_result_step(m, success, raw_id).state is Disconnected,
        disconnect_step(m).0.state is Disconnected,
        message_step(m, topic, payload).0.state is Disconnected,
        next_step(m).0.state is Disconnected,
        finish_step(m).0.state is Disconnected,
        close_step(m).0.state is Disconnected,
{
}

} // verus!
