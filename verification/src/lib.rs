//! A bridge that turns a callback-driven publish/subscribe client into a
//! sequential, ownership-scoped connection handle.
//!
//! The external client delivers connect results, disconnects and messages by
//! invoking callbacks out of band. The types here translate those invocations
//! into a small, fully specified state machine: a one-shot connect signal, a
//! terminal `Disconnected` state, and a bounded FIFO message queue drained by
//! `next`. The caller-facing surface is [`handle::MqttConnection`]; the
//! callback-facing transitions live on [`bridge::EventBridge`]. Every
//! transition is specified against the mathematical model in
//! [`bridge::BridgeModel`], and the laws in [`laws`] prove the ordering,
//! idempotence and termination guarantees of the design.

pub mod bridge;
pub mod handle;
pub mod laws;
pub mod messages;
pub mod session;
pub mod session_id;
