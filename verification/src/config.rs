//! Configuration for the Noxy SDK client.
use vstd::prelude::*;

verus! {

/// Configuration for the Noxy SDK client.
#[derive(Clone, Debug)]
pub struct NoxyConfig {
    /// Noxy relay gRPC endpoint (e.g. `https://relay.noxy.network`).
    pub endpoint: String,
    /// Bearer token for relay authentication.
    pub auth_token: String,
    /// Time-to-live for routed decisions in seconds.
    pub decision_ttl_seconds: u32,
}

} // verus!
