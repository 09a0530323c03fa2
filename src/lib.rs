//! Real-time messaging between registered users: a presence registry of live
//! connections, a conversation store, the router that validates, persists and
//! fans out each inbound message, and the per-connection state machine.
//!
//! The registry and the store are plain values: the application that serves
//! connections owns them, behind whatever lock it chooses, and holds the lock
//! only for the duration of one call.
pub mod clock;
pub mod connection;
pub mod errors;
pub mod ident;
pub mod json;
pub mod models;
pub mod presence;
pub mod router;
pub mod store;
pub mod utils;
