//! Core of a session-oriented peer-to-peer messaging and lobby layer.
//!
//! The crate models the decision half of a bridge between a callback-driven
//! networking transport and a host that registers handlers and polls: which
//! handler an event dispatches to, which pending connection requests exist and
//! how they are consumed, which transport effects a host call demands, and how
//! buffered inbound messages are handed out in bounded, ordered batches. The
//! transport itself (network I/O, polling, lobby storage) is an external
//! collaborator: a thin unverified shell performs the effects this core
//! decides on and feeds back the events this core routes.

pub mod client;
pub mod events;
pub mod laws;
pub mod messages;
pub mod pending;
pub mod slot;
