//! Shared state of a live quiz session, the protocol that changes it, and the
//! decisions of each connection that relays it.
pub mod tally;
pub mod messages;
pub mod quiz_state;
pub mod processor;
pub mod connection;
pub mod laws;
