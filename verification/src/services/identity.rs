//! Looking up the devices registered for an identity.
use crate::transport::{is_uuid_v4_text, new_request_id, BearerAuthorization, GetIdentityDevicesRequest};
use vstd::prelude::*;

verus! {

/// Builds `GetIdentityDevices` requests.
#[derive(Debug, Clone, Copy)]
pub struct IdentityService;

impl IdentityService {
    pub fn new() -> (s: Self) {
        IdentityService
    }

    /// The request for the devices of `identity_id`, under a fresh request id, carrying the
    /// authorization.
    pub fn devices_request(&self, auth: &BearerAuthorization, identity_id: &str) -> (r:
        GetIdentityDevicesRequest)
        ensures
            r.authorization@ == auth.value(),
            r.identity_id@ == identity_id@,
            is_uuid_v4_text(r.request_id@),
    {
        GetIdentityDevicesRequest {
            authorization: auth.header_value(),
            request_id: new_request_id(),
            identity_id: identity_id.to_string(),
        }
    }
}

} // verus!
