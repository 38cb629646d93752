//! The logic of the command-line commands.
pub mod cli;
pub mod cmd;
pub mod deps;
pub mod login;
pub mod update;
