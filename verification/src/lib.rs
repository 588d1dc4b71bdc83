//! Client-side logic of the Noxy Decision Layer SDK: wire types, end-to-end
//! encryption of decision payloads (Kyber768 + HKDF-SHA256 + AES-256-GCM),
//! the fan-out of one decision to every device of an identity, retry and
//! polling decisions, and endpoint handling.
pub mod client;
pub mod config;
pub mod crypto;
pub mod decision_outcome;
pub mod endpoint;
pub mod kyber_provider;
pub mod retries;
pub mod services;
pub mod transport;
pub mod types;

pub use config::NoxyConfig;
pub use decision_outcome::{
    is_terminal_human_outcome, DecisionPoller, PollStep, SendDecisionAndWaitNoDecisionIdError,
    WaitForDecisionOutcomeTimeoutError,
};
pub use endpoint::normalize_endpoint;
pub use types::{
    NoxyDeliveryOutcome, NoxyDeliveryStatus, NoxyGetDecisionOutcomeResponse, NoxyGetQuotaResponse,
    NoxyHumanDecisionOutcome, NoxyIdentityDevice, NoxyIdentityId, NoxyQuotaStatus,
};
