//! The syncer: it finds, stores and spreads blocks.

pub mod actor;
pub mod ingress;
pub mod laws;

pub use actor::{Actor, Config};
pub use ingress::{Mailbox, Message};
