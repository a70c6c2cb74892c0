//! What the application is configured with.

use vstd::prelude::*;

use crate::types::PublicKey;

verus! {

/// The configuration of the application.
#[derive(Clone, Debug, PartialEq, Eq)]
pub struct ApplicationConfig {
    /// Participants active in consensus.
    pub participants: Vec<PublicKey>,
    /// Number of messages from consensus to hold in our backlog before blocking.
    pub mailbox_size: usize,
    /// URL of the engine API of the execution client.
    pub engine_url: String,
    /// Shared JWT secret of the engine API.
    pub engine_jwt: String,
    /// What the names of the partitions of the store start with.
    pub partition_prefix: String,
}

} // verus!
