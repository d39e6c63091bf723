//! The event bridge: the state shared between the external client's
//! callbacks and the caller, with one fully specified transition per
//! callback or operation.
//!
//! Every executable transition is pinned to a spec-level step function over
//! [`BridgeModel`], so the laws in [`crate::laws`] speak about exactly what
//! the code does.

use vstd::prelude::*;
use crate::messages::{EnvelopeModel, MessageEnvelope, MessageQueue};
use crate::session::{ConnectError, ConnectionState, PendingConnectSignal, SessionError};
use crate::session_id::{parse_session_id, parse_u32_spec};

verus! {

/// Mathematical state of one bridge: the session lifecycle, the one-shot
/// connect signal, and the queued messages with the queue's capacity.
#[verifier::ext_equal]
pub ghost struct BridgeModel {
    pub state: ConnectionState,
    pub signal: PendingConnectSignal,
    pub queue: Seq<EnvelopeModel>,
    pub capacity: nat,
}

impl BridgeModel {
    /// The state of a bridge right after `connect` created it: a pending
    /// attempt, an unresolved signal, and an empty queue.
    pub open spec fn fresh(capacity: nat) -> BridgeModel {
        BridgeModel {
            state: ConnectionState::Pending,
            signal: PendingConnectSignal::Empty,
            queue: Seq::<EnvelopeModel>::empty(),
            capacity,
        }
    }

    /// The queue never exceeds its capacity, and the capacity is at least
    /// one.
    pub open spec fn wf(self) -> bool {
        self.queue.len() <= self.capacity && self.capacity >= 1
    }
}

/// What the connect-result callback does. It acts only on a pending attempt
/// whose signal is still unresolved; a late or repeated firing changes
/// nothing. On success with a well-formed identifier the session becomes
/// `Connected(id)`; on failure, or when the identifier is malformed, the
/// session ends without ever holding an identifier.
pub open spec fn connect_result_step(m: BridgeModel, success: bool, raw_id: Seq<char>) -> BridgeModel {
    if m.state is Pending && m.signal is Empty {
        if success && parse_u32_spec(raw_id) is Some {
            BridgeModel {
                state: ConnectionState::Connected(parse_u32_spec(raw_id)->0),
                signal: PendingConnectSignal::Filled(Some(parse_u32_spec(raw_id)->0)),
                ..m
            }
        } else {
            BridgeModel {
                state: ConnectionState::Disconnected,
                signal: PendingConnectSignal::Filled(None),
                ..m
            }
        }
    } else {
        m
    }
}

/// What the disconnect callback does. A live session ends and its
/// identifier is handed out once so the external client's handle can be
/// released; in every other state nothing happens. Queued messages stay.
pub open spec fn disconnect_step(m: BridgeModel) -> (BridgeModel, Option<u32>) {
    match m.state {
        ConnectionState::Connected(id) => (
            BridgeModel { state: ConnectionState::Disconnected, ..m },
            Some(id),
        ),
        _ => (m, None),
    }
}

/// What the message callback does. While connected and with room in the
/// queue the message is appended at the back; a full queue rejects the new
/// message and reports overflow; outside `Connected` the message is not
/// enqueued and the callback reports it.
pub open spec fn message_step(m: BridgeModel, topic: Seq<char>, payload: Seq<char>) -> (
    BridgeModel,
    Result<(), SessionError>,
) {
    if !(m.state is Connected) {
        (m, Err(SessionError::NotConnected))
    } else if m.queue.len() >= m.capacity {
        (m, Err(SessionError::QueueOverflow))
    } else {
        (
            BridgeModel { queue: m.queue.push(EnvelopeModel { topic, payload }), ..m },
            Ok(()),
        )
    }
}

/// What consuming the connect signal does. A filled slot is consumed and
/// its outcome handed out exactly once; an empty or already consumed slot
/// yields nothing.
pub open spec fn finish_step(m: BridgeModel) -> (BridgeModel, Option<Result<u32, ConnectError>>) {
    match m.signal {
        PendingConnectSignal::Filled(outcome) => (
            BridgeModel { signal: PendingConnectSignal::Consumed, ..m },
            Some(
                match outcome {
                    Some(id) => Ok(id),
                    None => Err(ConnectError::ConnectFailed),
                },
            ),
        ),
        _ => (m, None),
    }
}

/// What one read does. The oldest queued message comes out first whatever
/// the state; with the queue drained, a finished session reports
/// `Disconnected` and a live or pending one reports that no message is
/// available yet.
pub open spec fn next_step(m: BridgeModel) -> (
    BridgeModel,
    Option<Result<EnvelopeModel, SessionError>>,
) {
    if m.queue.len() > 0 {
        (BridgeModel { queue: m.queue.drop_first(), ..m }, Some(Ok(m.queue[0])))
    } else if m.state is Disconnected {
        (m, Some(Err(SessionError::Disconnected)))
    } else {
        (m, None)
    }
}

/// What closing does. A live session ends and its identifier is handed out
/// for the one external teardown call; a pending or already finished
/// session just ends, with nothing to tear down.
pub open spec fn close_step(m: BridgeModel) -> (BridgeModel, Option<u32>) {
    match m.state {
        ConnectionState::Connected(id) => (
            BridgeModel { state: ConnectionState::Disconnected, ..m },
            Some(id),
        ),
        _ => (BridgeModel { state: ConnectionState::Disconnected, ..m }, None),
    }
}

/// The state shared between the three callbacks registered with the
/// external client and the caller's handle.
pub struct EventBridge {
    state: ConnectionState,
    signal: PendingConnectSignal,
    queue: MessageQueue,
}

impl View for EventBridge {
    type V = BridgeModel;

    closed spec fn view(&self) -> BridgeModel {
        BridgeModel {
            state: self.state,
            signal: self.signal,
            queue: self.queue@,
            capacity: self.queue.spec_capacity(),
        }
    }
}

impl EventBridge {
    /// A fresh bridge for one connect attempt, with a message queue of the
    /// given capacity.
    pub fn new(queue_capacity: usize) -> (b: EventBridge)
        requires
            queue_capacity >= 1,
        ensures
            b@ == BridgeModel::fresh(queue_capacity as nat),
            b@.wf(),
    {
        let b = EventBridge {
            state: ConnectionState::Pending,
            signal: PendingConnectSignal::Empty,
            queue: MessageQueue::new(queue_capacity),
        };
        proof {
            assert(b@ =~= BridgeModel::fresh(queue_capacity as nat));
        }
        b
    }

    /// The connect-result callback: resolves the one-shot signal and moves a
    /// pending attempt to `Connected` or `Disconnected`.
    pub fn on_connect_result(&mut self, success: bool, raw_id: &str)
        ensures
            final(self)@ == connect_result_step(old(self)@, success, raw_id@),
    {
        match (self.state, self.signal) {
            (ConnectionState::Pending, PendingConnectSignal::Empty) => {
                let parsed = if success {
                    parse_session_id(raw_id)
                } else {
                    None
                };
                match parsed {
                    Some(id) => {
                        self.state = ConnectionState::Connected(id);
                        self.signal = PendingConnectSignal::Filled(Some(id));
                    },
                    None => {
                        self.state = ConnectionState::Disconnected;
                        self.signal = PendingConnectSignal::Filled(None);
                    },
                }
            },
            _ => {},
        }
    }

    /// The disconnect callback: ends a live session and hands out its
    /// identifier once for the external teardown call.
    pub fn on_disconnect(&mut self) -> (teardown: Option<u32>)
        ensures
            final(self)@ == disconnect_step(old(self)@).0,
            teardown == disconnect_step(old(self)@).1,
    {
        match self.state {
            ConnectionState::Connected(id) => {
                self.state = ConnectionState::Disconnected;
                Some(id)
            },
            _ => None,
        }
    }

    /// The message callback: appends the message to the bounded queue, or
    /// reports why it could not.
    pub fn on_message(&mut self, topic: String, payload: String) -> (r: Result<(), SessionError>)
        ensures
            final(self)@ == message_step(old(self)@, topic@, payload@).0,
            r == message_step(old(self)@, topic@, payload@).1,
            old(self)@.wf() ==> final(self)@.wf(),
    {
        match self.state {
            ConnectionState::Connected(_) => {
                if self.queue.len() < self.queue.capacity() {
                    self.queue.push_back(MessageEnvelope { topic, payload });
                    Ok(())
                } else {
                    Err(SessionError::QueueOverflow)
                }
            },
            _ => Err(SessionError::NotConnected),
        }
    }

    /// Consumes the connect signal: the outcome of the attempt, exactly
    /// once, or nothing while the result has not arrived or is already
    /// consumed.
    pub fn connect_finish(&mut self) -> (r: Option<Result<u32, ConnectError>>)
        ensures
            final(self)@ == finish_step(old(self)@).0,
            r == finish_step(old(self)@).1,
    {
        match self.signal {
            PendingConnectSignal::Filled(outcome) => {
                self.signal = PendingConnectSignal::Consumed;
                match outcome {
                    Some(id) => Some(Ok(id)),
                    None => Some(Err(ConnectError::ConnectFailed)),
                }
            },
            _ => None,
        }
    }

    /// One read: the oldest queued message, or the reason none will come.
    pub fn next(&mut self) -> (r: Option<Result<MessageEnvelope, SessionError>>)
        ensures
            final(self)@ == next_step(old(self)@).0,
            (match (r, next_step(old(self)@).1) {
                (Some(Ok(env)), Some(Ok(em))) => env@ == em,
                (Some(Err(e)), Some(Err(se))) => e == se,
                (None, None) => true,
                _ => false,
            }),
    {
        if self.queue.len() > 0 {
            Some(Ok(self.queue.pop_front()))
        } else {
            match self.state {
                ConnectionState::Disconnected => Some(Err(SessionError::Disconnected)),
                _ => None,
            }
        }
    }

    /// The current lifecycle state.
    pub fn state_snapshot(&self) -> (s: ConnectionState)
        ensures
            s == self@.state,
    {
        self.state
    }

    /// Ends the session and hands out the identifier for the one external
    /// teardown call, if a live session still holds one.
    pub fn close(&mut self) -> (teardown: Option<u32>)
        ensures
            final(self)@ == close_step(old(self)@).0,
            teardown == close_step(old(self)@).1,
    {
        match self.state {
            ConnectionState::Connected(id) => {
                self.state = ConnectionState::Disconnected;
                Some(id)
            },
            _ => {
                self.state = ConnectionState::Disconnected;
                None
            },
        }
    }
}

} // verus!
