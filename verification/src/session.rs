//! Session lifecycle: connection state, the one-shot connect signal, and the
//! error taxonomy of the bridge.

use vstd::prelude::*;

verus! {

/// The lifecycle of one session with the external pub/sub client.
///
/// Exactly one transition leaves `Pending` (the connect-result callback) and
/// exactly one transition leaves `Connected` (the disconnect callback or an
/// explicit close). `Disconnected` is terminal: no event or operation leaves
/// it again.
#[derive(Clone, Copy, Debug, PartialEq, Eq, Structural)]
pub enum ConnectionState {
    /// A connect attempt is in flight; no session identifier exists yet.
    Pending,
    /// The session is live under the identifier issued by the external client.
    Connected(u32),
    /// The session is over, whether it ever connected or not.
    Disconnected,
}

/// A single-use, single-value slot resolved by the connect-result callback.
///
/// The callback fills the slot exactly once (`Empty` to `Filled`); the connect
/// operation consumes it exactly once (`Filled` to `Consumed`). A late or
/// repeated firing finds the slot no longer `Empty` and is ignored, and a
/// second consumption finds it no longer `Filled` and yields nothing.
#[derive(Clone, Copy, Debug, PartialEq, Eq)]
pub enum PendingConnectSignal {
    /// No result has arrived yet.
    Empty,
    /// The result arrived: `Some(id)` on success, `None` on failure or on a
    /// malformed identifier.
    Filled(Option<u32>),
    /// The result has been handed to the connect operation.
    Consumed,
}

/// Why a connect attempt did not produce a connection.
#[derive(Clone, Copy, Debug, PartialEq, Eq, Structural)]
pub enum ConnectError {
    /// The external client reported failure, or returned an identifier that
    /// is not a decimal session number.
    ConnectFailed,
}

/// Why an operation on an existing handle did not do its work.
#[derive(Clone, Copy, Debug, PartialEq, Eq, Structural)]
pub enum SessionError {
    /// The operation needs a live session and the state is `Pending` or
    /// `Disconnected`.
    NotConnected,
    /// The session is over and the message queue is drained.
    Disconnected,
    /// A message arrived while the bounded queue was full; the new message
    /// was rejected and the queued ones kept.
    QueueOverflow,
}

} // verus!
