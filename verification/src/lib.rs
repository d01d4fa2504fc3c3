//! The core of a single-request HTTP passthrough proxy, free of I/O.
//!
//! One inbound request is rebuilt as an outbound request to a backend, both
//! bodies are relayed chunk by chunk, and the backend's response goes back to
//! the caller unchanged. The crate decides; the embedding environment acts:
//! every function here takes plain values and returns plain values, and the
//! session in [`session`] tells its driver which operation to perform next.
//!
//! - [`headers`] and [`descriptor`]: the metadata of a request and of a response.
//! - [`adapter`]: the outbound request for an inbound one, the outbound
//!   response for the backend's.
//! - [`relay`]: the transfer of one body, chunk by chunk.
//! - [`exchange`]: the pending exchange and the wait for its completion.
//! - [`commit`]: the one place through which an outcome leaves a session.
//! - [`protocol`], [`session`]: the session and what it exchanges with its driver.
//! - [`model`], [`laws`]: the session as a mathematical value, and what holds
//!   of every relay and every session.
//! - [`error`]: what can go wrong.

pub mod adapter;
pub mod commit;
pub mod descriptor;
pub mod error;
pub mod exchange;
pub mod headers;
pub mod laws;
pub mod model;
pub mod protocol;
pub mod relay;
pub mod session;
