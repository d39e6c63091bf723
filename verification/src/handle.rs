//! The caller-facing connection handle.
//!
//! `MqttConnection` owns the event bridge of one session. The caller drives
//! the session through it (`subscribe`, `unsubscribe`, `next`, `close`), and
//! the host environment routes the external client's callback invocations
//! into it (`on_connect_result`, `on_disconnect`, `on_message`). Operations
//! that must reach the external client do not perform I/O themselves: they
//! decide, and hand back a request value for the host to forward.

use vstd::prelude::*;
use crate::bridge::{
    close_step, connect_result_step, disconnect_step, finish_step, message_step, next_step,
    BridgeModel, EventBridge,
};
use crate::messages::MessageEnvelope;
use crate::session::{ConnectError, ConnectionState, SessionError};

verus! {

/// How the external client acknowledges subscribe and unsubscribe requests:
/// some client variants answer each request, others accept it fire-and-forget.
/// The host forwards a request accordingly.
#[derive(Clone, Copy, Debug, PartialEq, Eq, Structural)]
pub enum AckMode {
    FireAndForget,
    Acknowledged,
}

/// Which forwarded operation a request asks for.
#[derive(Clone, Copy, Debug, PartialEq, Eq, Structural)]
pub enum RequestKind {
    Subscribe,
    Unsubscribe,
}

/// The connect call to forward to the external client, exactly as the caller
/// asked for it.
#[derive(Clone, Debug)]
pub struct ConnectRequest {
    pub host: String,
    pub port: u16,
    pub client_id: String,
}

/// A subscribe or unsubscribe call to forward to the external client, keyed
/// by the live session's identifier.
#[derive(Clone, Debug)]
pub struct ForwardRequest {
    pub session_id: u32,
    pub topic: String,
    pub kind: RequestKind,
    pub ack: AckMode,
}

/// Mathematical image of a forwarded request.
#[verifier::ext_equal]
pub ghost struct RequestModel {
    pub session_id: u32,
    pub topic: Seq<char>,
    pub kind: RequestKind,
    pub ack: AckMode,
}

impl View for ForwardRequest {
    type V = RequestModel;

    open spec fn view(&self) -> RequestModel {
        RequestModel {
            session_id: self.session_id,
            topic: self.topic@,
            kind: self.kind,
            ack: self.ack,
        }
    }
}

/// Mathematical state of a handle: its bridge and the acknowledgement mode
/// requests are forwarded with.
#[verifier::ext_equal]
pub ghost struct HandleModel {
    pub bridge: BridgeModel,
    pub ack: AckMode,
}

/// What `subscribe` and `unsubscribe` decide: a request keyed by the live
/// session's identifier, or `NotConnected` exactly when the state is not
/// `Connected` — in which case nothing is forwarded.
pub open spec fn request_step(m: HandleModel, kind: RequestKind, topic: Seq<char>) -> Result<
    RequestModel,
    SessionError,
> {
    match m.bridge.state {
        ConnectionState::Connected(id) => Ok(
            RequestModel { session_id: id, topic, kind, ack: m.ack },
        ),
        _ => Err(SessionError::NotConnected),
    }
}

/// One live (or recently live) session with the external client.
pub struct MqttConnection {
    bridge: EventBridge,
    ack: AckMode,
}

impl View for MqttConnection {
    type V = HandleModel;

    closed spec fn view(&self) -> HandleModel {
        HandleModel { bridge: self.bridge@, ack: self.ack }
    }
}

impl MqttConnection {
    /// Starts a connect attempt: a fresh handle whose bridge is pending and
    /// whose queue is empty, and the connect call for the host to forward.
    /// The attempt resolves when the connect-result callback fires and
    /// `connect_finish` consumes the outcome.
    pub fn connect_begin(
        host: &str,
        port: u16,
        client_id: &str,
        queue_capacity: usize,
        ack: AckMode,
    ) -> (r: (MqttConnection, ConnectRequest))
        requires
            queue_capacity >= 1,
        ensures
            r.0@.bridge == BridgeModel::fresh(queue_capacity as nat),
            r.0@.bridge.wf(),
            r.0@.ack == ack,
            r.1.host@ == host@,
            r.1.port == port,
            r.1.client_id@ == client_id@,
    {
        let conn = MqttConnection { bridge: EventBridge::new(queue_capacity), ack };
        let req = ConnectRequest {
            host: host.to_owned(),
            port,
            client_id: client_id.to_owned(),
        };
        (conn, req)
    }

    /// Routes the connect-result callback into the bridge.
    pub fn on_connect_result(&mut self, success: bool, raw_id: &str)
        ensures
            final(self)@.bridge == connect_result_step(old(self)@.bridge, success, raw_id@),
            final(self)@.ack == old(self)@.ack,
    {
        self.bridge.on_connect_result(success, raw_id);
    }

    /// Routes the disconnect callback into the bridge; the host issues the
    /// external teardown call for the identifier handed back, if any.
    pub fn on_disconnect(&mut self) -> (teardown: Option<u32>)
        ensures
            final(self)@.bridge == disconnect_step(old(self)@.bridge).0,
            final(self)@.ack == old(self)@.ack,
            teardown == disconnect_step(old(self)@.bridge).1,
    {
        self.bridge.on_disconnect()
    }

    /// Routes the message callback into the bridge's bounded queue.
    pub fn on_message(&mut self, topic: String, payload: String) -> (r: Result<(), SessionError>)
        ensures
            final(self)@.bridge == message_step(old(self)@.bridge, topic@, payload@).0,
            final(self)@.ack == old(self)@.ack,
            r == message_step(old(self)@.bridge, topic@, payload@).1,
            old(self)@.bridge.wf() ==> final(self)@.bridge.wf(),
    {
        self.bridge.on_message(topic, payload)
    }

    /// Consumes the connect attempt's outcome: the session identifier, the
    /// connect failure, or nothing while the result callback has not fired
    /// (or the outcome is already consumed).
    pub fn connect_finish(&mut self) -> (r: Option<Result<u32, ConnectError>>)
        ensures
            final(self)@.bridge == finish_step(old(self)@.bridge).0,
            final(self)@.ack == old(self)@.ack,
            r == finish_step(old(self)@.bridge).1,
    {
        self.bridge.connect_finish()
    }

    /// Decides a subscribe: the request to forward while connected, and
    /// `NotConnected` — with nothing forwarded — in any other state.
    pub fn subscribe(&self, topic: &str) -> (r: Result<ForwardRequest, SessionError>)
        ensures
            (match (r, request_step(self@, RequestKind::Subscribe, topic@)) {
                (Ok(req), Ok(rm)) => req@ == rm,
                (Err(e), Err(se)) => e == se,
                _ => false,
            }),
            r is Err <==> !(self@.bridge.state is Connected),
    {
        match self.bridge_state() {
            ConnectionState::Connected(id) => Ok(ForwardRequest {
                session_id: id,
                topic: topic.to_owned(),
                kind: RequestKind::Subscribe,
                ack: self.ack,
            }),
            _ => Err(SessionError::NotConnected),
        }
    }

    /// Decides an unsubscribe, symmetrically to `subscribe`.
    pub fn unsubscribe(&self, topic: &str) -> (r: Result<ForwardRequest, SessionError>)
        ensures
            (match (r, request_step(self@, RequestKind::Unsubscribe, topic@)) {
                (Ok(req), Ok(rm)) => req@ == rm,
                (Err(e), Err(se)) => e == se,
                _ => false,
            }),
            r is Err <==> !(self@.bridge.state is Connected),
    {
        match self.bridge_state() {
            ConnectionState::Connected(id) => Ok(ForwardRequest {
                session_id: id,
                topic: topic.to_owned(),
                kind: RequestKind::Unsubscribe,
                ack: self.ack,
            }),
            _ => Err(SessionError::NotConnected),
        }
    }

    /// One read from the session: the oldest queued message; `Disconnected`
    /// once the session is over and the queue drained; nothing while the
    /// session is live and no message has arrived yet.
    pub fn next(&mut self) -> (r: Option<Result<MessageEnvelope, SessionError>>)
        ensures
            final(self)@.bridge == next_step(old(self)@.bridge).0,
            final(self)@.ack == old(self)@.ack,
            (match (r, next_step(old(self)@.bridge).1) {
                (Some(Ok(env)), Some(Ok(em))) => env@ == em,
                (Some(Err(e)), Some(Err(se))) => e == se,
                (None, None) => true,
                _ => false,
            }),
    {
        self.bridge.next()
    }

    /// Ends the session. The identifier handed back, present exactly when
    /// the session was still live, is for the host's one external teardown
    /// call; calling again, or after a disconnect was observed, hands back
    /// nothing.
    pub fn close(&mut self) -> (teardown: Option<u32>)
        ensures
            final(self)@.bridge == close_step(old(self)@.bridge).0,
            final(self)@.ack == old(self)@.ack,
            teardown == close_step(old(self)@.bridge).1,
    {
        self.bridge.close()
    }

    /// The current lifecycle state, as the bridge holds it.
    fn bridge_state(&self) -> (s: ConnectionState)
        ensures
            s == self@.bridge.state,
    {
        self.bridge.state_snapshot()
    }
}

} // verus!
