//! Session orchestration for a peer-to-peer voice-call client.
//!
//! The crate turns signaling messages, transport-state notifications and user
//! intents into one consistent call lifecycle. Every function carries a
//! contract that is proved against its body; the few places that rest on the
//! behaviour of another crate are marked as such where they stand.

pub mod connection;
pub mod error;
pub mod filtering;
pub mod metrics;
pub mod room;
pub mod selection;
pub mod session;
pub mod signaling;
pub mod wire;
