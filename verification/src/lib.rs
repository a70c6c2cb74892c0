//! Summit, a consensus client that drives EVM chains through the Engine API.

pub mod application;
pub mod node;
pub mod outside;
pub mod syncer;
pub mod types;
