//! Session registry and synchronous/asynchronous bridge for hosting a
//! long-lived agent runtime behind a foreign, synchronous call surface.
//!
//! The crate provides the verified core: a concurrency-safe registry of
//! opaque session handles, the decision logic of the blocking bridge, the
//! authorization gate that rate-limits side-effecting actions, and the
//! boundary adapter that validates and encodes request/response payloads.
//! The host process supplies the foreign-call plumbing and performs the
//! network effects the library prepares.

pub mod adapter;
pub mod android;
pub mod bridge;
pub mod config;
pub mod gate;
pub mod notify;
pub mod registry;
pub mod text;
