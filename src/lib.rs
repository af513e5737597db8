//! In-process loopback transport between a language server and its client
//! handling loop: a socket that streams outbound requests, accepts inbound
//! responses, and splits into two independently owned halves, all tied to a
//! shared, monotonic server lifecycle state.

pub mod state;
pub mod jsonrpc;
pub mod pending;
pub mod channel;
pub mod socket;
