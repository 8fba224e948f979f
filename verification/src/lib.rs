//! Core of a chat-to-assistant bridge: each chat session is mapped to a
//! durable backend conversation thread, an incoming message starts a "run" on
//! that thread, and the run is polled to a terminal outcome within a bounded
//! number of attempts. The reply text shown to the user is assembled here.
//!
//! Everything that talks to the network (the chat transport, the assistant
//! backend, the durable key-value store) lives outside this crate; the library
//! holds the decisions: which backend call comes next, how a run status is
//! classified, what text each outcome produces, and how the session table
//! changes.

pub mod coordinator;
pub mod message;
pub mod session;
pub mod status;
