//! The application's quota on the relay.
use crate::transport::{is_uuid_v4_text, new_request_id, BearerAuthorization, GetQuotaRequest};
use crate::types::{quota_status_of_code, NoxyGetQuotaResponse, NoxyQuotaStatus};
use vstd::prelude::*;

verus! {

/// Builds `GetQuota` requests and reads their replies.
#[derive(Debug, Clone, Copy)]
pub struct QuotaService;

impl QuotaService {
    pub fn new() -> (s: Self) {
        QuotaService
    }

    /// The quota request, under a fresh request id, carrying the authorization.
    pub fn quota_request(&self, auth: &BearerAuthorization) -> (r: GetQuotaRequest)
        ensures
            r.authorization@ == auth.value(),
            is_uuid_v4_text(r.request_id@),
    {
        GetQuotaRequest { authorization: auth.header_value(), request_id: new_request_id() }
    }

    /// The quota response built from the fields of a `GetQuota` reply.
    pub fn quota_response(
        &self,
        request_id: String,
        app_name: String,
        quota_total: u64,
        quota_remaining: u64,
        status_code: i32,
    ) -> (r: NoxyGetQuotaResponse)
        ensures
            r.request_id@ == request_id@,
            r.app_name@ == app_name@,
            r.quota_total == quota_total,
            r.quota_remaining == quota_remaining,
            r.status == quota_status_of_code(status_code),
    {
        NoxyGetQuotaResponse {
            request_id,
            app_name,
            quota_total,
            quota_remaining,
            status: NoxyQuotaStatus::from(status_code),
        }
    }
}

} // verus!
