//! Routing one decision, encrypted per device, to every device of an identity.
use crate::crypto::{self, CryptoError, NONCE_LEN, TAG_LEN};
use crate::kyber_provider::{is_encapsulation, kyber768_encaps_ciphertext, kyber768_encaps_secret, kyber_error_text, KyberError, KyberProvider, KYBER_CIPHERTEXT_LEN, KYBER_PUBLIC_KEY_LEN};
use crate::transport::{is_uuid_v4_text, new_request_id, BearerAuthorization, RouteDecisionRequest};
use crate::types::{delivery_status_of_code, NoxyDeliveryOutcome, NoxyDeliveryStatus, NoxyIdentityDevice};
use vstd::prelude::*;
use vstd::string::StringExecFns;

verus! {

/// How many times one `RouteDecision` call is tried before its error is reported.
pub const ROUTE_DECISION_ATTEMPTS: u32 = 3;

/// `kyber_ct` is Kyber768's encapsulation to `pq_public_key` under some 32 coins, and
/// `ciphertext` is `plaintext` sealed under `nonce` with the key that HKDF-SHA256 derives
/// from the shared secret of that same encapsulation: the holder of the matching secret key
/// recovers the secret from `kyber_ct` and opens `ciphertext`.
pub open spec fn sealed_for_key(
    pq_public_key: Seq<u8>,
    kyber_ct: Seq<u8>,
    nonce: Seq<u8>,
    ciphertext: Seq<u8>,
    plaintext: Seq<u8>,
) -> bool {
    exists|coins: Seq<u8>|
        coins.len() == 32 && #[trigger] kyber768_encaps_ciphertext(pq_public_key, coins) == kyber_ct
            && crypto::sealed_payload(kyber768_encaps_secret(pq_public_key, coins), nonce, plaintext)
            == ciphertext
}

/// The result of encrypting `plaintext` for a device whose post-quantum public key is
/// `pq_public_key`: when it fails and why, and the (kyber ciphertext, nonce, ciphertext) it
/// returns, exact but for the encapsulation coins and the nonce, which are random.
pub open spec fn encryption_outcome_ok(
    pq_public_key: Seq<u8>,
    plaintext: Seq<u8>,
    r: Result<(Vec<u8>, Vec<u8>, Vec<u8>), DecisionError>,
) -> bool {
    &&& (r matches Err(DecisionError::Kyber(e)) <==> pq_public_key.len() != KYBER_PUBLIC_KEY_LEN)
    &&& (r matches Err(DecisionError::Kyber(e)) ==> e == KyberError::InvalidPublicKey)
    &&& (r matches Err(DecisionError::Crypto(e)) <==> pq_public_key.len() == KYBER_PUBLIC_KEY_LEN
        && plaintext.len() > crypto::aes_gcm_max_plaintext_len())
    &&& (r matches Err(DecisionError::Crypto(e)) ==> e == CryptoError::Encrypt)
    &&& (r matches Ok(out) ==> {
        &&& out.0@.len() == KYBER_CIPHERTEXT_LEN
        &&& out.1@.len() == NONCE_LEN
        &&& out.2@.len() == plaintext.len() + TAG_LEN
        &&& sealed_for_key(pq_public_key, out.0@, out.1@, out.2@, plaintext)
    })
}

/// Sealing a payload under the secret of an encapsulation to a key is sealing it for that key.
pub proof fn lemma_sealed_for_key(
    pq_public_key: Seq<u8>,
    kyber_ct: Seq<u8>,
    shared_secret: Seq<u8>,
    nonce: Seq<u8>,
    ciphertext: Seq<u8>,
    plaintext: Seq<u8>,
)
    requires
        is_encapsulation(pq_public_key, kyber_ct, shared_secret),
        crypto::sealed_payload(shared_secret, nonce, plaintext) == ciphertext,
    ensures
        sealed_for_key(pq_public_key, kyber_ct, nonce, ciphertext, plaintext),
{
    let coins = choose|coins: Seq<u8>|
        coins.len() == 32 && #[trigger] kyber768_encaps_ciphertext(pq_public_key, coins) == kyber_ct
            && kyber768_encaps_secret(pq_public_key, coins) == shared_secret;
    assert(kyber768_encaps_ciphertext(pq_public_key, coins) == kyber_ct);
}

/// The decision id of a delivery: the relay's, or the one that was sent when the relay
/// returned none.
pub open spec fn delivered_decision_id(response_decision_id: Seq<char>, sent_decision_id: Seq<char>) -> Seq<char> {
    if response_decision_id.len() == 0 {
        sent_decision_id
    } else {
        response_decision_id
    }
}

/// A delivery of a decision sent under a decision id always carries a decision id; so the
/// deliveries of a batch, whose decision id is a UUID, all have one.
pub proof fn lemma_delivery_keeps_decision_id(response_decision_id: Seq<char>, sent_decision_id: Seq<char>)
    ensures
        sent_decision_id.len() > 0 ==> delivered_decision_id(response_decision_id, sent_decision_id).len() > 0,
        is_uuid_v4_text(sent_decision_id) ==> delivered_decision_id(response_decision_id, sent_decision_id).len() > 0,
        response_decision_id.len() == 0 ==> delivered_decision_id(response_decision_id, sent_decision_id)
            == sent_decision_id,
{
}

/// Why routing a decision failed before anything was sent for a device.
#[derive(Debug, Clone, Copy, PartialEq, Eq, Structural)]
pub enum DecisionError {
    /// Kyber encapsulation to the device's key failed.
    Kyber(KyberError),
    /// AES-GCM encryption of the payload failed.
    Crypto(CryptoError),
}

/// The human-readable text of a routing error: the step that failed, then its error.
pub open spec fn decision_error_text(e: DecisionError) -> Seq<char> {
    match e {
        DecisionError::Kyber(k) => "Kyber encapsulate: "@ + kyber_error_text(k),
        DecisionError::Crypto(c) => "AES-GCM encrypt: "@ + crypto::crypto_error_text(c),
    }
}

impl DecisionError {
    /// The human-readable text of the error.
    pub fn message(&self) -> (s: String)
        ensures
            s@ == decision_error_text(*self),
    {
        match self {
            DecisionError::Kyber(e) => {
                let s = "Kyber encapsulate: ".to_string();
                let m = e.message();
                s.concat(m.as_str())
            },
            DecisionError::Crypto(e) => {
                let s = "AES-GCM encrypt: ".to_string();
                let m = e.message();
                s.concat(m.as_str())
            },
        }
    }
}

/// Encrypts decisions per device and builds their `RouteDecision` requests.
#[derive(Debug, Clone, Copy)]
pub struct DecisionService {
    pub kyber_provider: KyberProvider,
}

impl DecisionService {
    pub fn new(kyber_provider: KyberProvider) -> (s: Self)
        ensures
            s.kyber_provider == kyber_provider,
    {
        DecisionService { kyber_provider }
    }

    /// Encrypt `plaintext` for one device: Kyber768 encapsulation to the device's
    /// post-quantum key, then AES-256-GCM under the key derived from the shared secret.
    /// Returns (kyber ciphertext, nonce, ciphertext).
    pub fn encrypt_decision(&self, device_pq_public_key: &[u8], plaintext: &[u8]) -> (r: Result<
        (Vec<u8>, Vec<u8>, Vec<u8>),
        DecisionError,
    >)
        ensures
            encryption_outcome_ok(device_pq_public_key@, plaintext@, r),
    {
        let (kyber_ct, shared_secret) = match self.kyber_provider.encapsulate(device_pq_public_key) {
            Ok(out) => out,
            Err(e) => {
                return Err(DecisionError::Kyber(e));
            },
        };
        let (ciphertext, nonce) = match crypto::encrypt(shared_secret.as_slice(), plaintext) {
            Ok(out) => out,
            Err(e) => {
                return Err(DecisionError::Crypto(e));
            },
        };
        proof {
            lemma_sealed_for_key(device_pq_public_key@, kyber_ct@, shared_secret@, nonce@, ciphertext@, plaintext@);
        }
        Ok((kyber_ct, nonce, ciphertext))
    }

    /// The delivery outcome for a `RouteDecision` reply: the relay's status and request id,
    /// and the relay's decision id, or the one that was sent when the relay returned none.
    pub fn delivery_outcome(
        status_code: i32,
        request_id: String,
        response_decision_id: String,
        sent_decision_id: &str,
    ) -> (o: NoxyDeliveryOutcome)
        ensures
            o.status == delivery_status_of_code(status_code),
            o.request_id@ == request_id@,
            o.decision_id@ == delivered_decision_id(response_decision_id@, sent_decision_id@),
    {
        let decision_id = if response_decision_id.as_str().is_empty() {
            sent_decision_id.to_string()
        } else {
            response_decision_id
        };
        NoxyDeliveryOutcome {
            status: NoxyDeliveryStatus::from(status_code),
            request_id,
            decision_id,
        }
    }

    /// Start routing one decision to `devices`, under one fresh decision id shared by the
    /// whole batch.
    pub fn start_batch(
        &self,
        auth: BearerAuthorization,
        devices: Vec<NoxyIdentityDevice>,
        plaintext: Vec<u8>,
        ttl_seconds: u32,
    ) -> (b: DecisionBatch)
        ensures
            b.authorization() == auth.value(),
            b.carries_decision_ids(),
            b.devices() == devices@,
            b.plaintext() == plaintext@,
            b.ttl_seconds() == ttl_seconds,
            b.outcomes().len() == 0,
            is_uuid_v4_text(b.decision_id()),
    {
        let decision_id = new_request_id();
        DecisionBatch::new(*self, auth, devices, plaintext, decision_id, ttl_seconds)
    }
}

/// One decision on its way to every device of an identity: the devices are served in order,
/// each with its own encrypted copy, and every copy carries the same decision id.
pub struct DecisionBatch {
    service: DecisionService,
    auth: BearerAuthorization,
    devices: Vec<NoxyIdentityDevice>,
    plaintext: Vec<u8>,
    decision_id: String,
    ttl_seconds: u32,
    outcomes: Vec<NoxyDeliveryOutcome>,
}

impl DecisionBatch {
    /// The authorization that every request of the batch carries.
    pub closed spec fn authorization(&self) -> Seq<char> {
        self.auth.value()
    }

    /// Every delivery recorded so far carries the batch's decision id, or a non-empty one
    /// from the relay.
    pub open spec fn carries_decision_ids(&self) -> bool {
        forall|i: int|
            0 <= i < self.outcomes().len() ==> (#[trigger] self.outcomes()[i]).decision_id@
                == self.decision_id() || self.outcomes()[i].decision_id@.len() > 0
    }

    /// The devices the decision goes to, in order.
    pub closed spec fn devices(&self) -> Seq<NoxyIdentityDevice> {
        self.devices@
    }

    /// The serialized decision.
    pub closed spec fn plaintext(&self) -> Seq<u8> {
        self.plaintext@
    }

    /// The decision id shared by every device of the batch.
    pub closed spec fn decision_id(&self) -> Seq<char> {
        self.decision_id@
    }

    /// The time to live of the routed decision.
    pub closed spec fn ttl_seconds(&self) -> u32 {
        self.ttl_seconds
    }

    /// The delivery outcomes recorded so far, one per device served.
    pub closed spec fn outcomes(&self) -> Seq<NoxyDeliveryOutcome> {
        self.outcomes@
    }

    /// Every device has its outcome.
    pub open spec fn spec_is_complete(&self) -> bool {
        self.outcomes().len() >= self.devices().len()
    }

    /// A batch of `devices` under the given decision id.
    pub fn new(
        service: DecisionService,
        auth: BearerAuthorization,
        devices: Vec<NoxyIdentityDevice>,
        plaintext: Vec<u8>,
        decision_id: String,
        ttl_seconds: u32,
    ) -> (b: Self)
        ensures
            b.authorization() == auth.value(),
            b.carries_decision_ids(),
            b.devices() == devices@,
            b.plaintext() == plaintext@,
            b.decision_id() == decision_id@,
            b.ttl_seconds() == ttl_seconds,
            b.outcomes().len() == 0,
    {
        DecisionBatch { service, auth, devices, plaintext, decision_id, ttl_seconds, outcomes: Vec::new() }
    }

    /// Whether every device has its outcome.
    pub fn is_complete(&self) -> (c: bool)
        ensures
            c == self.spec_is_complete(),
    {
        self.outcomes.len() >= self.devices.len()
    }

    /// The decision id shared by every device of the batch.
    pub fn decision_id_str(&self) -> (s: &str)
        ensures
            s@ == self.decision_id(),
    {
        self.decision_id.as_str()
    }

    /// The `RouteDecision` request for the next device, encrypted for it; `None` once every
    /// device has its outcome.
    pub fn next_request(&self) -> (r: Result<Option<RouteDecisionRequest>, DecisionError>)
        ensures
            self.spec_is_complete() ==> r matches Ok(None),
            !self.spec_is_complete() ==> {
                let device = self.devices()[self.outcomes().len() as int];
                &&& !(r matches Ok(None))
                &&& (r matches Err(e) ==> encryption_outcome_ok(
                    device.pq_public_key@,
                    self.plaintext(),
                    Err(e),
                ))
                &&& (r matches Ok(Some(req)) ==> encryption_outcome_ok(
                    device.pq_public_key@,
                    self.plaintext(),
                    Ok((req.kyber_ct, req.nonce, req.ciphertext)),
                ))
                &&& (r matches Ok(Some(req)) ==> {
                    &&& req.authorization@ == self.authorization()
                    &&& req.decision_id@ == self.decision_id()
                    &&& req.target_device_id@ == device.device_id@
                    &&& req.ttl_seconds == self.ttl_seconds()
                    &&& is_uuid_v4_text(req.request_id@)
                })
            },
    {
        let k = self.outcomes.len();
        if k >= self.devices.len() {
            return Ok(None);
        }
        let device = &self.devices[k];
        let (kyber_ct, nonce, ciphertext) = match self.service.encrypt_decision(
            device.pq_public_key.as_slice(),
            self.plaintext.as_slice(),
        ) {
            Ok(out) => out,
            Err(e) => {
                return Err(e);
            },
        };
        let decision_id = self.decision_id.clone();
        let target_device_id = device.device_id.clone();
        Ok(
            Some(
                RouteDecisionRequest {
                    authorization: self.auth.header_value(),
                    request_id: new_request_id(),
                    ciphertext,
                    ttl_seconds: self.ttl_seconds,
                    target_device_id,
                    kyber_ct,
                    nonce,
                    decision_id,
                },
            ),
        )
    }

    /// Record the delivery outcome of the next device from the relay's `RouteDecision`
    /// reply: its status, its request id, and its decision id, or the batch's when the relay
    /// returned none.
    pub fn record(&mut self, status_code: i32, request_id: String, response_decision_id: String)
        requires
            !old(self).spec_is_complete(),
        ensures
            final(self).outcomes().len() == old(self).outcomes().len() + 1,
            final(self).outcomes().subrange(0, old(self).outcomes().len() as int) == old(self).outcomes(),
            final(self).outcomes().last().status == delivery_status_of_code(status_code),
            final(self).outcomes().last().request_id@ == request_id@,
            final(self).outcomes().last().decision_id@ == delivered_decision_id(
                response_decision_id@,
                old(self).decision_id(),
            ),
            old(self).carries_decision_ids() ==> final(self).carries_decision_ids(),
            final(self).authorization() == old(self).authorization(),
            final(self).devices() == old(self).devices(),
            final(self).plaintext() == old(self).plaintext(),
            final(self).decision_id() == old(self).decision_id(),
            final(self).ttl_seconds() == old(self).ttl_seconds(),
    {
        let outcome = DecisionService::delivery_outcome(
            status_code,
            request_id,
            response_decision_id,
            self.decision_id.as_str(),
        );
        self.outcomes.push(outcome);
        assert(self.outcomes@.subrange(0, old(self).outcomes@.len() as int) =~= old(self).outcomes@);
    }

    /// The delivery outcomes, one per device served, in device order.
    pub fn into_outcomes(self) -> (v: Vec<NoxyDeliveryOutcome>)
        ensures
            v@ == self.outcomes(),
            self.carries_decision_ids() && self.decision_id().len() > 0 ==> forall|i: int|
                0 <= i < v@.len() ==> (#[trigger] v@[i]).decision_id@.len() > 0,
    {
        self.outcomes
    }
}

} // verus!
