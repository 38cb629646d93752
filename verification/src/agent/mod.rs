//! The agent: per-session handlers and the runner that tracks tmux sessions.
pub mod runner;
pub mod session;
