//! A minimal SSH client core: a session handle, a channel state machine,
//! and a command executor, all specified and verified. Transport security,
//! key exchange and packet framing are delegated to an external transport
//! collaborator; this crate owns the decisions made around it.

pub mod channel;
pub mod client;
pub mod error;
pub mod host;
pub mod text;
