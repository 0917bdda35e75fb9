//! Control of a coding agent from outside.
//!
//! The first half is an adapter that stands between an external client and the
//! agent's server. It passes JSON-RPC messages through in both directions and
//! adds notifications of its own: what input was queued, what the streams say,
//! which permissions are asked for and how they are answered, and what a turn
//! changed. [`protocol`] has the messages, [`adapter`] says what is made of
//! what, and [`connection`] is one client's connection.
//!
//! The second half, [`orchestrator`], decides how a tool call runs: who has to
//! approve it, in which sandbox it is attempted, and whether it is retried
//! outside the sandbox after a denial.
//!
//! Neither half does any input or output. Both take what happened and say what
//! is to be done.

pub mod adapter;
pub mod adapter_laws;
pub mod connection;
pub mod connection_laws;
pub mod ids;
pub mod json;
pub mod json_eq;
pub mod json_facts;
pub mod json_laws;
pub mod message_laws;
pub mod notification;
pub mod orchestrator;
pub mod orchestrator_laws;
pub mod orchestrator_outcome;
pub mod orchestrator_steps;
pub mod pending;
pub mod protocol;
pub mod protocol_laws;
pub mod text;
pub mod wire;
