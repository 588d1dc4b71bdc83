//! Requests sent to the relay's `noxy.agent.AgentService`, as plain values, and the
//! client-generated identifiers that they carry.
use vstd::prelude::*;

verus! {

/// A lower-case hexadecimal digit.
pub open spec fn is_lower_hex_digit(c: char) -> bool {
    ('0' <= c && c <= '9') || ('a' <= c && c <= 'f')
}

/// The hyphenated lower-case text of a random (version 4, RFC 4122 variant) UUID:
/// 36 characters, hyphens at 8, 13, 18 and 23, hex digits elsewhere, the version digit `4`
/// at 14 and one of `8`, `9`, `a`, `b` at 19.
pub open spec fn is_uuid_v4_text(s: Seq<char>) -> bool {
    &&& s.len() == 36
    &&& forall|i: int|
        0 <= i < 36 ==> if i == 8 || i == 13 || i == 18 || i == 23 {
            s[i] == '-'
        } else {
            is_lower_hex_digit(#[trigger] s[i])
        }
    &&& s[14] == '4'
    &&& (s[19] == '8' || s[19] == '9' || s[19] == 'a' || s[19] == 'b')
}

/// `uuid::Uuid::new_v4().to_string()`. Trusted: the text has the shape of a version-4 UUID
/// (`is_uuid_v4_text`); its 122 random bits are not stated. The call panics if the operating
/// system cannot supply random bytes.
#[verifier::external_body]
pub(crate) fn new_request_id() -> (id: String)
    ensures
        is_uuid_v4_text(id@),
{
    uuid::Uuid::new_v4().to_string()
}

/// Text that gRPC accepts as an ASCII metadata value: no control character but tab, and no
/// DEL (`http::HeaderValue` refuses every byte below 32 except tab, and byte 127).
pub open spec fn is_metadata_value_text(s: Seq<char>) -> bool {
    forall|i: int| 0 <= i < s.len() ==> #[trigger] s[i] == '\t' || (' ' <= s[i] && s[i] != '\x7f')
}

#[verifier::external_type_specification]
#[verifier::external_body]
pub struct ExInvalidMetadataValue(tonic::metadata::errors::InvalidMetadataValue);

/// `<AsciiMetadataValue as FromStr>::from_str(text)`, keeping only whether it succeeded.
/// Trusted: it succeeds exactly when `text` is metadata value text, as
/// `http::HeaderValue::from_str` refuses exactly the bytes below 32 but tab, and byte 127
/// (every byte of a non-ASCII character is 128 or above).
#[verifier::external_body]
fn parse_ascii_metadata_value(text: &str) -> (r: Result<(), tonic::metadata::errors::InvalidMetadataValue>)
    ensures
        r is Ok <==> is_metadata_value_text(text@),
{
    match text.parse::<tonic::metadata::AsciiMetadataValue>() {
        Ok(_) => Ok(()),
        Err(e) => Err(e),
    }
}

/// The `authorization` metadata value of every call to the relay: `Bearer ` and the
/// application's token.
#[derive(Debug, Clone)]
pub struct BearerAuthorization {
    value: String,
}

impl BearerAuthorization {
    /// The header value.
    pub closed spec fn value(&self) -> Seq<char> {
        self.value@
    }

    /// The authorization for the application token `auth_token`; `None` when `Bearer ` and
    /// the token is no valid metadata value.
    pub fn from_token(auth_token: &str) -> (r: Option<Self>)
        ensures
            r is Some <==> is_metadata_value_text("Bearer "@ + auth_token@),
            r matches Some(a) ==> a.value() == "Bearer "@ + auth_token@,
    {
        let value = crate::client::bearer_authorization(auth_token);
        match parse_ascii_metadata_value(value.as_str()) {
            Ok(()) => Some(BearerAuthorization { value }),
            Err(_) => None,
        }
    }

    /// The header value.
    pub fn as_str(&self) -> (s: &str)
        ensures
            s@ == self.value(),
    {
        self.value.as_str()
    }

    /// A copy of the header value, for one request.
    pub fn header_value(&self) -> (s: String)
        ensures
            s@ == self.value(),
    {
        self.value.clone()
    }
}

/// `RouteDecision`: one encrypted copy of a decision for one device.
#[derive(Debug, Clone)]
pub struct RouteDecisionRequest {
    /// The `authorization` metadata value the call carries.
    pub authorization: String,
    pub request_id: String,
    pub ciphertext: Vec<u8>,
    pub ttl_seconds: u32,
    pub target_device_id: String,
    pub kyber_ct: Vec<u8>,
    pub nonce: Vec<u8>,
    pub decision_id: String,
}

/// `GetDecisionOutcome`: one poll of a decision's human resolution.
#[derive(Debug, Clone)]
pub struct GetDecisionOutcomeRequest {
    /// The `authorization` metadata value the call carries.
    pub authorization: String,
    pub request_id: String,
    pub decision_id: String,
    pub identity_id: String,
}

/// `GetQuota`: the application's quota.
#[derive(Debug, Clone)]
pub struct GetQuotaRequest {
    /// The `authorization` metadata value the call carries.
    pub authorization: String,
    pub request_id: String,
}

/// `GetIdentityDevices`: the devices registered for an identity.
#[derive(Debug, Clone)]
pub struct GetIdentityDevicesRequest {
    /// The `authorization` metadata value the call carries.
    pub authorization: String,
    pub request_id: String,
    pub identity_id: String,
}

} // verus!
