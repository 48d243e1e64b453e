//! Watches an audio server's default capture source and decides when its
//! mute state changes.
//!
//! The library holds the decisions: the catalog of capture sources built from
//! an enumeration, the resolution of the default source, the classification of
//! change notifications, the connection state machine and the reconciliation
//! step that yields a mute or unmute notice. Talking to the daemon is left to
//! the caller, which hands each answer to these functions as plain values.
pub mod connection;
pub mod error;
pub mod events;
pub mod listing;
pub mod source;
pub mod state;
