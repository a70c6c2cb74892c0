//! The node: its configuration and its command line.

pub mod args;
pub mod config;
pub mod laws;

pub use args::{CliArgs, Command, Flags, KeySubCmd};
pub use config::EngineConfig;
