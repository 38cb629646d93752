//! Relay protocol: messages, the reconnection policy and the client's
//! message logic.
pub mod client;
pub mod message;
pub mod reconnect;
