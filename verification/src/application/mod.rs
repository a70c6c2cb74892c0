//! The application that consensus drives: it proposes, verifies and relays blocks.

pub mod actor;
pub mod config;
pub mod engine_client;
pub mod finalizer;
pub mod ingress;
pub mod laws;
pub mod supervisor;

pub use actor::Actor;
pub use config::ApplicationConfig;
pub use engine_client::EngineClient;
pub use ingress::{Mailbox, Message};
pub use supervisor::Supervisor;
