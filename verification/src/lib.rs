//! Verified core of a small publish/subscribe system that talks over TCP: its messages,
//! its error type, the roles of its connection manager and the exchanges of a client
//! with the server.
pub mod connection_manager;
pub mod errors;
pub mod exchange;
pub mod laws;
pub mod types;
