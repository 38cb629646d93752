//! A verified core for the SessionCast agent: configuration, end-to-end
//! encryption framing, tmux command construction and output parsing, relay
//! messages, the reconnection policy and the per-session decisions.
pub mod codec;
pub mod crypto;
pub mod text;
pub mod websocket;
pub mod tmux;
pub mod config;
pub mod agent;
pub mod commands;
