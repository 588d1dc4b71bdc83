//! Types of the relay's `agent.proto` API as the SDK exposes them.
use vstd::prelude::*;

verus! {

/// Relay `identity_id`: logical user identity (wallet `0x...`, email, phone, app `user_id`, ...);
/// it must match device registration.
pub type NoxyIdentityId = String;

/// Relay-side delivery status after `RouteDecision` (the proto `DeliveryStatus`).
#[derive(Debug, Clone, Copy, PartialEq, Eq, Structural)]
pub enum NoxyDeliveryStatus {
    Delivered,
    Queued,
    NoDevices,
    Rejected,
    Error,
}

/// The proto number of each delivery status.
pub open spec fn delivery_status_code(s: NoxyDeliveryStatus) -> i32 {
    match s {
        NoxyDeliveryStatus::Delivered => 0,
        NoxyDeliveryStatus::Queued => 1,
        NoxyDeliveryStatus::NoDevices => 2,
        NoxyDeliveryStatus::Rejected => 3,
        NoxyDeliveryStatus::Error => 4,
    }
}

/// The delivery status that a proto number stands for; unknown numbers read as `Error`.
pub open spec fn delivery_status_of_code(v: i32) -> NoxyDeliveryStatus {
    if v == 0 {
        NoxyDeliveryStatus::Delivered
    } else if v == 1 {
        NoxyDeliveryStatus::Queued
    } else if v == 2 {
        NoxyDeliveryStatus::NoDevices
    } else if v == 3 {
        NoxyDeliveryStatus::Rejected
    } else {
        NoxyDeliveryStatus::Error
    }
}

impl NoxyDeliveryStatus {
    /// The proto number of this status.
    pub fn code(self) -> (c: i32)
        ensures
            c == delivery_status_code(self),
    {
        match self {
            NoxyDeliveryStatus::Delivered => 0,
            NoxyDeliveryStatus::Queued => 1,
            NoxyDeliveryStatus::NoDevices => 2,
            NoxyDeliveryStatus::Rejected => 3,
            NoxyDeliveryStatus::Error => 4,
        }
    }
}

impl From<i32> for NoxyDeliveryStatus {
    fn from(v: i32) -> (s: Self) {
        if v == 0 {
            NoxyDeliveryStatus::Delivered
        } else if v == 1 {
            NoxyDeliveryStatus::Queued
        } else if v == 2 {
            NoxyDeliveryStatus::NoDevices
        } else if v == 3 {
            NoxyDeliveryStatus::Rejected
        } else {
            NoxyDeliveryStatus::Error
        }
    }
}

impl vstd::std_specs::convert::FromSpecImpl<i32> for NoxyDeliveryStatus {
    open spec fn obeys_from_spec() -> bool {
        true
    }

    open spec fn from_spec(v: i32) -> NoxyDeliveryStatus {
        delivery_status_of_code(v)
    }
}

/// Reading a status back from its own proto number gives the status again.
pub proof fn lemma_delivery_status_code_roundtrip(s: NoxyDeliveryStatus)
    ensures
        delivery_status_of_code(delivery_status_code(s)) == s,
        0 <= delivery_status_code(s) <= 4,
{
}

/// Response for a single `RouteDecision` delivery to one device.
#[derive(Debug, Clone)]
pub struct NoxyDeliveryOutcome {
    pub status: NoxyDeliveryStatus,
    pub request_id: String,
    /// Present when the relay tracks human resolution; use with `get_decision_outcome` / `wait_for_decision_outcome`.
    pub decision_id: String,
}

/// Human-in-the-loop resolution (the proto `DecisionOutcome`).
#[derive(Debug, Clone, Copy, PartialEq, Eq, Structural)]
pub enum NoxyHumanDecisionOutcome {
    Pending,
    Approved,
    Rejected,
    Expired,
}

/// The proto number of each decision outcome.
pub open spec fn human_outcome_code(o: NoxyHumanDecisionOutcome) -> i32 {
    match o {
        NoxyHumanDecisionOutcome::Pending => 0,
        NoxyHumanDecisionOutcome::Approved => 1,
        NoxyHumanDecisionOutcome::Rejected => 2,
        NoxyHumanDecisionOutcome::Expired => 3,
    }
}

/// The decision outcome that a proto number stands for; unknown numbers read as `Pending`.
pub open spec fn human_outcome_of_code(v: i32) -> NoxyHumanDecisionOutcome {
    if v == 1 {
        NoxyHumanDecisionOutcome::Approved
    } else if v == 2 {
        NoxyHumanDecisionOutcome::Rejected
    } else if v == 3 {
        NoxyHumanDecisionOutcome::Expired
    } else {
        NoxyHumanDecisionOutcome::Pending
    }
}

impl NoxyHumanDecisionOutcome {
    /// The proto number of this outcome.
    pub fn code(self) -> (c: i32)
        ensures
            c == human_outcome_code(self),
    {
        match self {
            NoxyHumanDecisionOutcome::Pending => 0,
            NoxyHumanDecisionOutcome::Approved => 1,
            NoxyHumanDecisionOutcome::Rejected => 2,
            NoxyHumanDecisionOutcome::Expired => 3,
        }
    }
}

impl From<i32> for NoxyHumanDecisionOutcome {
    fn from(v: i32) -> (o: Self) {
        if v == 1 {
            NoxyHumanDecisionOutcome::Approved
        } else if v == 2 {
            NoxyHumanDecisionOutcome::Rejected
        } else if v == 3 {
            NoxyHumanDecisionOutcome::Expired
        } else {
            NoxyHumanDecisionOutcome::Pending
        }
    }
}

impl vstd::std_specs::convert::FromSpecImpl<i32> for NoxyHumanDecisionOutcome {
    open spec fn obeys_from_spec() -> bool {
        true
    }

    open spec fn from_spec(v: i32) -> NoxyHumanDecisionOutcome {
        human_outcome_of_code(v)
    }
}

/// Reading an outcome back from its own proto number gives the outcome again.
pub proof fn lemma_human_outcome_code_roundtrip(o: NoxyHumanDecisionOutcome)
    ensures
        human_outcome_of_code(human_outcome_code(o)) == o,
        0 <= human_outcome_code(o) <= 3,
{
}

/// Result of polling `GetDecisionOutcome`.
#[derive(Debug, Clone)]
pub struct NoxyGetDecisionOutcomeResponse {
    pub request_id: String,
    pub pending: bool,
    pub outcome: NoxyHumanDecisionOutcome,
}

impl NoxyGetDecisionOutcomeResponse {
    /// The response built from the fields of a `GetDecisionOutcome` reply.
    pub fn from_wire(request_id: String, pending: bool, outcome_code: i32) -> (r: Self)
        ensures
            r.request_id@ == request_id@,
            r.pending == pending,
            r.outcome == human_outcome_of_code(outcome_code),
    {
        NoxyGetDecisionOutcomeResponse {
            request_id,
            pending,
            outcome: NoxyHumanDecisionOutcome::from(outcome_code),
        }
    }
}

/// Quota status for the application.
#[derive(Debug, Clone, Copy, PartialEq, Eq, Structural)]
pub enum NoxyQuotaStatus {
    QuotaActive,
    QuotaSuspended,
    QuotaDeleted,
}

/// The proto number of each quota status.
pub open spec fn quota_status_code(s: NoxyQuotaStatus) -> i32 {
    match s {
        NoxyQuotaStatus::QuotaActive => 0,
        NoxyQuotaStatus::QuotaSuspended => 1,
        NoxyQuotaStatus::QuotaDeleted => 2,
    }
}

/// The quota status that a proto number stands for; unknown numbers read as `QuotaActive`.
pub open spec fn quota_status_of_code(v: i32) -> NoxyQuotaStatus {
    if v == 1 {
        NoxyQuotaStatus::QuotaSuspended
    } else if v == 2 {
        NoxyQuotaStatus::QuotaDeleted
    } else {
        NoxyQuotaStatus::QuotaActive
    }
}

impl NoxyQuotaStatus {
    /// The proto number of this status.
    pub fn code(self) -> (c: i32)
        ensures
            c == quota_status_code(self),
    {
        match self {
            NoxyQuotaStatus::QuotaActive => 0,
            NoxyQuotaStatus::QuotaSuspended => 1,
            NoxyQuotaStatus::QuotaDeleted => 2,
        }
    }
}

impl From<i32> for NoxyQuotaStatus {
    fn from(v: i32) -> (s: Self) {
        if v == 1 {
            NoxyQuotaStatus::QuotaSuspended
        } else if v == 2 {
            NoxyQuotaStatus::QuotaDeleted
        } else {
            NoxyQuotaStatus::QuotaActive
        }
    }
}

impl vstd::std_specs::convert::FromSpecImpl<i32> for NoxyQuotaStatus {
    open spec fn obeys_from_spec() -> bool {
        true
    }

    open spec fn from_spec(v: i32) -> NoxyQuotaStatus {
        quota_status_of_code(v)
    }
}

/// Reading a quota status back from its own proto number gives the status again.
pub proof fn lemma_quota_status_code_roundtrip(s: NoxyQuotaStatus)
    ensures
        quota_status_of_code(quota_status_code(s)) == s,
        0 <= quota_status_code(s) <= 2,
{
}

/// Response for quota query.
#[derive(Debug, Clone)]
pub struct NoxyGetQuotaResponse {
    pub request_id: String,
    pub app_name: String,
    pub quota_total: u64,
    pub quota_remaining: u64,
    pub status: NoxyQuotaStatus,
}

/// Identity device with keys for encryption.
#[derive(Debug, Clone)]
pub struct NoxyIdentityDevice {
    pub device_id: String,
    pub public_key: Vec<u8>,
    pub pq_public_key: Vec<u8>,
}

} // verus!
