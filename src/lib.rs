//! Core of a real-time group chat server: the session registry, the message
//! store with author-checked edits and deletes, the decoding of inbound
//! actions, and the per-connection lifecycle.

pub mod ids;
pub mod store;
pub mod registry;
pub mod wire;
pub mod session;
pub mod accounts;
