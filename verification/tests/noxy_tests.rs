use noxy_sdk::client::{bearer_authorization, decision_outcome_request, first_decision_id};
use noxy_sdk::crypto::{encrypt, encrypt_with_nonce, CryptoError};
use noxy_sdk::decision_outcome::{
    is_terminal_human_outcome, DecisionPoller, PollStep, SendDecisionAndWaitNoDecisionIdError,
    WaitForDecisionOutcomeTimeoutError,
};
use noxy_sdk::endpoint::{endpoint_url, normalize_endpoint};
use noxy_sdk::kyber_provider::{KyberError, KyberProvider};
use noxy_sdk::retries::{after_failed_attempt, is_retryable, retry_delay, RetryAction};
use noxy_sdk::services::decision::{DecisionBatch, DecisionError, DecisionService};
use noxy_sdk::services::identity::IdentityService;
use noxy_sdk::services::push::PushService;
use noxy_sdk::services::quota::QuotaService;
use noxy_sdk::transport::BearerAuthorization;
use noxy_sdk::{
    NoxyDeliveryOutcome, NoxyDeliveryStatus, NoxyGetDecisionOutcomeResponse, NoxyHumanDecisionOutcome,
    NoxyIdentityDevice, NoxyQuotaStatus,
};

use aes_gcm::aead::{Aead, KeyInit};
use pqcrypto_traits::kem::{Ciphertext, PublicKey, SharedSecret};

fn derive_key(shared_secret: &[u8]) -> Vec<u8> {
    let hk = hkdf::Hkdf::<sha2::Sha256>::new(None, shared_secret);
    let mut key = [0u8; 32];
    hk.expand(b"", &mut key).unwrap();
    key.to_vec()
}

fn open(shared_secret: &[u8], nonce: &[u8], ciphertext: &[u8]) -> Vec<u8> {
    let key = derive_key(shared_secret);
    let cipher = aes_gcm::Aes256Gcm::new_from_slice(&key).unwrap();
    cipher.decrypt(aes_gcm::Nonce::from_slice(nonce), ciphertext).unwrap()
}

fn is_uuid_v4(s: &str) -> bool {
    let c: Vec<char> = s.chars().collect();
    if c.len() != 36 {
        return false;
    }
    for (i, ch) in c.iter().enumerate() {
        if i == 8 || i == 13 || i == 18 || i == 23 {
            if *ch != '-' {
                return false;
            }
        } else if !(ch.is_ascii_digit() || ('a'..='f').contains(ch)) {
            return false;
        }
    }
    c[14] == '4' && "89ab".contains(c[19])
}

fn delivery(decision_id: &str) -> NoxyDeliveryOutcome {
    NoxyDeliveryOutcome {
        status: NoxyDeliveryStatus::Delivered,
        request_id: "r".to_string(),
        decision_id: decision_id.to_string(),
    }
}

#[test]
fn delivery_status_codes() {
    assert_eq!(NoxyDeliveryStatus::from(0), NoxyDeliveryStatus::Delivered);
    assert_eq!(NoxyDeliveryStatus::from(1), NoxyDeliveryStatus::Queued);
    assert_eq!(NoxyDeliveryStatus::from(2), NoxyDeliveryStatus::NoDevices);
    assert_eq!(NoxyDeliveryStatus::from(3), NoxyDeliveryStatus::Rejected);
    assert_eq!(NoxyDeliveryStatus::from(4), NoxyDeliveryStatus::Error);
    assert_eq!(NoxyDeliveryStatus::from(99), NoxyDeliveryStatus::Error);
    assert_eq!(NoxyDeliveryStatus::from(-1), NoxyDeliveryStatus::Error);
    for s in [
        NoxyDeliveryStatus::Delivered,
        NoxyDeliveryStatus::Queued,
        NoxyDeliveryStatus::NoDevices,
        NoxyDeliveryStatus::Rejected,
        NoxyDeliveryStatus::Error,
    ] {
        assert_eq!(NoxyDeliveryStatus::from(s.code()), s);
    }
}

#[test]
fn human_outcome_codes() {
    assert_eq!(NoxyHumanDecisionOutcome::from(0), NoxyHumanDecisionOutcome::Pending);
    assert_eq!(NoxyHumanDecisionOutcome::from(1), NoxyHumanDecisionOutcome::Approved);
    assert_eq!(NoxyHumanDecisionOutcome::from(2), NoxyHumanDecisionOutcome::Rejected);
    assert_eq!(NoxyHumanDecisionOutcome::from(3), NoxyHumanDecisionOutcome::Expired);
    assert_eq!(NoxyHumanDecisionOutcome::from(42), NoxyHumanDecisionOutcome::Pending);
    for o in [
        NoxyHumanDecisionOutcome::Pending,
        NoxyHumanDecisionOutcome::Approved,
        NoxyHumanDecisionOutcome::Rejected,
        NoxyHumanDecisionOutcome::Expired,
    ] {
        assert_eq!(NoxyHumanDecisionOutcome::from(o.code()), o);
    }
}

#[test]
fn quota_status_codes() {
    assert_eq!(NoxyQuotaStatus::from(0), NoxyQuotaStatus::QuotaActive);
    assert_eq!(NoxyQuotaStatus::from(1), NoxyQuotaStatus::QuotaSuspended);
    assert_eq!(NoxyQuotaStatus::from(2), NoxyQuotaStatus::QuotaDeleted);
    assert_eq!(NoxyQuotaStatus::from(3), NoxyQuotaStatus::QuotaActive);
    for s in [NoxyQuotaStatus::QuotaActive, NoxyQuotaStatus::QuotaSuspended, NoxyQuotaStatus::QuotaDeleted] {
        assert_eq!(NoxyQuotaStatus::from(s.code()), s);
    }
}

#[test]
fn terminal_outcomes() {
    assert!(!is_terminal_human_outcome(NoxyHumanDecisionOutcome::Pending));
    assert!(is_terminal_human_outcome(NoxyHumanDecisionOutcome::Approved));
    assert!(is_terminal_human_outcome(NoxyHumanDecisionOutcome::Rejected));
    assert!(is_terminal_human_outcome(NoxyHumanDecisionOutcome::Expired));
}

#[test]
fn retryable_status_codes() {
    for code in [2, 4, 8, 14] {
        assert!(is_retryable(Some(code)));
    }
    for code in [0, 1, 3, 5, 13, 15, 16] {
        assert!(!is_retryable(Some(code)));
    }
    assert!(!is_retryable(None));
}

#[test]
fn retry_backoff_doubles() {
    assert_eq!(retry_delay(0), 100);
    assert_eq!(retry_delay(1), 200);
    assert_eq!(retry_delay(2), 400);
    assert_eq!(retry_delay(57), 100u64 * (1u64 << 57));
    for a in 0..57 {
        assert_eq!(retry_delay(a + 1), 2 * retry_delay(a));
    }
}

#[test]
fn retry_decisions() {
    assert_eq!(after_failed_attempt(0, 3, true), RetryAction::Backoff { delay_ms: 100 });
    assert_eq!(after_failed_attempt(1, 3, true), RetryAction::Backoff { delay_ms: 200 });
    assert_eq!(after_failed_attempt(2, 3, true), RetryAction::GiveUp);
    assert_eq!(after_failed_attempt(0, 3, false), RetryAction::GiveUp);
    assert_eq!(after_failed_attempt(0, 1, true), RetryAction::GiveUp);
}

#[test]
fn poller_defaults_and_steps() {
    let p = DecisionPoller::new(None, None, None);
    assert_eq!(p.interval_ms, 400);
    assert_eq!(p.max_poll_interval_ms, 30_000);
    assert_eq!(p.max_wait_ms, 900_000);
    assert!(!p.deadline_passed(900_000));
    assert!(p.deadline_passed(900_001));

    let pending = NoxyGetDecisionOutcomeResponse::from_wire("a".to_string(), true, 0);
    match p.on_response(pending) {
        PollStep::Sleep { delay_ms } => assert_eq!(delay_ms, 400),
        PollStep::Finished(_) => panic!("a pending answer must not end the wait"),
    }
    let approved = NoxyGetDecisionOutcomeResponse::from_wire("b".to_string(), true, 1);
    match p.on_response(approved) {
        PollStep::Finished(r) => {
            assert_eq!(r.request_id, "b");
            assert_eq!(r.outcome, NoxyHumanDecisionOutcome::Approved);
        }
        PollStep::Sleep { .. } => panic!("an approved answer ends the wait"),
    }
    let settled = NoxyGetDecisionOutcomeResponse::from_wire("c".to_string(), false, 0);
    match p.on_response(settled) {
        PollStep::Finished(r) => assert!(!r.pending),
        PollStep::Sleep { .. } => panic!("a non-pending answer ends the wait"),
    }
}

#[test]
fn poller_backoff_is_capped() {
    let mut p = DecisionPoller::new(Some(50_000), Some(1_000), Some(10));
    let pending = NoxyGetDecisionOutcomeResponse::from_wire("a".to_string(), true, 0);
    match p.on_response(pending.clone()) {
        PollStep::Sleep { delay_ms } => assert_eq!(delay_ms, 1_000),
        PollStep::Finished(_) => panic!("pending"),
    }
    p.advance(640);
    assert_eq!(p.interval_ms, 640);
    p.advance(1_024);
    assert_eq!(p.interval_ms, 1_000);
    assert_eq!(p.max_wait_ms, 10);
}

#[test]
fn first_delivery_with_decision_id() {
    let deliveries = vec![delivery(""), delivery("d-1"), delivery("d-2")];
    assert_eq!(first_decision_id(&deliveries).unwrap(), "d-1");
    let none = vec![delivery(""), delivery("")];
    assert_eq!(first_decision_id(&none), Err(SendDecisionAndWaitNoDecisionIdError));
    assert_eq!(first_decision_id(&vec![]), Err(SendDecisionAndWaitNoDecisionIdError));
}

#[test]
fn endpoint_normalization() {
    assert_eq!(normalize_endpoint("https://relay.noxy.network"), "relay.noxy.network");
    assert_eq!(normalize_endpoint("https://relay.noxy.network:443/"), "relay.noxy.network:443");
    assert_eq!(normalize_endpoint("http://relay.local//"), "relay.local");
    assert_eq!(normalize_endpoint("https://https://x"), "x");
    assert_eq!(normalize_endpoint("http://https://x"), "https://x");
    assert_eq!(normalize_endpoint("relay"), "relay");
    assert_eq!(normalize_endpoint("https://"), "");
    assert_eq!(normalize_endpoint(""), "");
    assert_eq!(normalize_endpoint("ḧttps://ü/"), "ḧttps://ü");
    assert_eq!(endpoint_url("https://relay.noxy.network/"), "https://relay.noxy.network");
}

#[test]
fn bearer_header_must_be_metadata_text() {
    assert!(BearerAuthorization::from_token("a\nb").is_none());
    assert!(BearerAuthorization::from_token("tok\u{7f}").is_none());
    assert!(BearerAuthorization::from_token("\u{1}").is_none());
    assert_eq!(BearerAuthorization::from_token("a\tb").unwrap().as_str(), "Bearer a\tb");
    assert_eq!(BearerAuthorization::from_token("caf\u{e9}").unwrap().as_str(), "Bearer caf\u{e9}");
    assert_eq!(BearerAuthorization::from_token("").unwrap().as_str(), "Bearer ");
}

#[test]
fn bearer_header() {
    assert_eq!(bearer_authorization("tok-123"), "Bearer tok-123");
    let auth = BearerAuthorization::from_token("tok-123").unwrap();
    assert_eq!(auth.as_str(), "Bearer tok-123");
    assert_eq!(auth.header_value(), "Bearer tok-123");
    assert_eq!(bearer_authorization(""), "Bearer ");
}

#[test]
fn request_ids_are_uuid_v4() {
    let auth = BearerAuthorization::from_token("tok").unwrap();
    let a = QuotaService::new().quota_request(&auth).request_id;
    let b = QuotaService::new().quota_request(&auth).request_id;
    assert!(is_uuid_v4(&a));
    assert!(is_uuid_v4(&b));
    assert_ne!(a, b);
    let r = decision_outcome_request(&auth, "dec", "0xabc");
    assert_eq!(r.authorization, "Bearer tok");
    assert_eq!(r.decision_id, "dec");
    assert_eq!(r.identity_id, "0xabc");
    assert!(is_uuid_v4(&r.request_id));
    let d = IdentityService::new().devices_request(&auth, "0xabc");
    assert_eq!(d.authorization, "Bearer tok");
    assert_eq!(d.identity_id, "0xabc");
    assert!(is_uuid_v4(&d.request_id));
    let q = QuotaService::new().quota_request(&auth);
    assert!(is_uuid_v4(&q.request_id));
    assert_eq!(q.authorization, "Bearer tok");
}

#[test]
fn quota_response_from_reply() {
    let r = QuotaService::new().quota_response("rq".to_string(), "app".to_string(), 100, 42, 1);
    assert_eq!(r.request_id, "rq");
    assert_eq!(r.app_name, "app");
    assert_eq!(r.quota_total, 100);
    assert_eq!(r.quota_remaining, 42);
    assert_eq!(r.status, NoxyQuotaStatus::QuotaSuspended);
}

#[test]
fn aes_gcm_with_known_nonce() {
    let ss = [7u8; 32];
    let nonce = vec![1u8; 12];
    let plaintext = b"{\"kind\":\"propose_tool_call\"}".to_vec();
    let (ciphertext, n) = encrypt_with_nonce(&ss, &plaintext, nonce.clone()).unwrap();
    assert_eq!(n, nonce);
    assert_eq!(ciphertext.len(), plaintext.len() + 16);
    assert_ne!(&ciphertext[..plaintext.len()], &plaintext[..]);
    assert_eq!(open(&ss, &n, &ciphertext), plaintext);
    let (again, _) = encrypt_with_nonce(&ss, &plaintext, nonce).unwrap();
    assert_eq!(again, ciphertext);
    let (other, _) = encrypt_with_nonce(&[8u8; 32], &plaintext, vec![1u8; 12]).unwrap();
    assert_ne!(other, ciphertext);
}

#[test]
fn aes_gcm_with_random_nonce() {
    let ss = b"any length of shared secret".to_vec();
    let (c1, n1) = encrypt(&ss, b"").unwrap();
    let (c2, n2) = encrypt(&ss, b"").unwrap();
    assert_eq!(n1.len(), 12);
    assert_eq!(c1.len(), 16);
    assert_ne!(n1, n2);
    assert_eq!(open(&ss, &n1, &c1), Vec::<u8>::new());
    assert_eq!(open(&ss, &n2, &c2), Vec::<u8>::new());
}

#[test]
fn error_messages() {
    assert_eq!(CryptoError::Hkdf.message(), "HKDF error");
    assert_eq!(CryptoError::Key.message(), "Invalid key");
    assert_eq!(CryptoError::Encrypt.message(), "Encryption failed");
    assert_eq!(KyberError::InvalidPublicKey.message(), "Invalid Kyber public key");
    assert_eq!(
        DecisionError::Kyber(KyberError::InvalidPublicKey).message(),
        "Kyber encapsulate: Invalid Kyber public key"
    );
    assert_eq!(DecisionError::Crypto(CryptoError::Encrypt).message(), "AES-GCM encrypt: Encryption failed");
    assert_eq!(
        WaitForDecisionOutcomeTimeoutError.message(),
        "wait_for_decision_outcome exceeded max_wait_ms"
    );
    assert_eq!(
        SendDecisionAndWaitNoDecisionIdError.message(),
        "send_decision returned no decision_id to poll; check delivery statuses"
    );
}

#[test]
fn kyber_rejects_bad_key_length() {
    let k = KyberProvider::new();
    assert_eq!(k.encapsulate(&[0u8; 1183]), Err(KyberError::InvalidPublicKey));
    assert_eq!(k.encapsulate(&[]), Err(KyberError::InvalidPublicKey));
    assert_eq!(KyberProvider::default().encapsulate(&[0u8; 1185]), Err(KyberError::InvalidPublicKey));
}

#[test]
fn kyber_encapsulation_decapsulates() {
    let (pk, sk) = pqcrypto_kyber::kyber768::keypair();
    let (ct, ss) = KyberProvider::new().encapsulate(pk.as_bytes()).unwrap();
    assert_eq!(ct.len(), 1088);
    assert_eq!(ss.len(), 32);
    let ct = pqcrypto_kyber::kyber768::Ciphertext::from_bytes(&ct).unwrap();
    let ss2 = pqcrypto_kyber::kyber768::decapsulate(&ct, &sk);
    assert_eq!(ss2.as_bytes(), &ss[..]);
}

fn open_for(sk: &pqcrypto_kyber::kyber768::SecretKey, kyber_ct: &[u8], nonce: &[u8], ciphertext: &[u8]) -> Vec<u8> {
    let ct = pqcrypto_kyber::kyber768::Ciphertext::from_bytes(kyber_ct).unwrap();
    let ss = pqcrypto_kyber::kyber768::decapsulate(&ct, sk);
    open(ss.as_bytes(), nonce, ciphertext)
}

#[test]
fn decision_encrypted_for_device() {
    let (pk, sk) = pqcrypto_kyber::kyber768::keypair();
    let service = DecisionService::new(KyberProvider::new());
    let (kyber_ct, nonce, ciphertext) = service.encrypt_decision(pk.as_bytes(), b"approve?").unwrap();
    assert_eq!(kyber_ct.len(), 1088);
    assert_eq!(nonce.len(), 12);
    assert_eq!(ciphertext.len(), 8 + 16);
    assert_eq!(open_for(&sk, &kyber_ct, &nonce, &ciphertext), b"approve?".to_vec());
    assert_eq!(
        service.encrypt_decision(&[1u8; 10], b"x"),
        Err(DecisionError::Kyber(KyberError::InvalidPublicKey))
    );
    let push = PushService::new(KyberProvider::new());
    let (kyber_ct, nonce, ciphertext) = push.encrypt_notification(pk.as_bytes(), b"hello").unwrap();
    assert_eq!(open_for(&sk, &kyber_ct, &nonce, &ciphertext), b"hello".to_vec());
    assert_eq!(
        push.encrypt_notification(&[], b"x"),
        Err(DecisionError::Kyber(KyberError::InvalidPublicKey))
    );
}

#[test]
fn delivery_outcome_falls_back_to_sent_decision_id() {
    let o = DecisionService::delivery_outcome(1, "req".to_string(), String::new(), "sent-id");
    assert_eq!(o.status, NoxyDeliveryStatus::Queued);
    assert_eq!(o.request_id, "req");
    assert_eq!(o.decision_id, "sent-id");
    let o = DecisionService::delivery_outcome(9, "req".to_string(), "relay-id".to_string(), "sent-id");
    assert_eq!(o.status, NoxyDeliveryStatus::Error);
    assert_eq!(o.decision_id, "relay-id");
}

#[test]
fn batch_shares_one_decision_id() {
    let (pk1, sk1) = pqcrypto_kyber::kyber768::keypair();
    let (pk2, sk2) = pqcrypto_kyber::kyber768::keypair();
    let devices = vec![
        NoxyIdentityDevice { device_id: "dev-1".to_string(), public_key: vec![], pq_public_key: pk1.as_bytes().to_vec() },
        NoxyIdentityDevice { device_id: "dev-2".to_string(), public_key: vec![9], pq_public_key: pk2.as_bytes().to_vec() },
    ];
    let service = DecisionService::new(KyberProvider::new());
    let mut batch = service.start_batch(BearerAuthorization::from_token("t").unwrap(), devices, b"{\"a\":1}".to_vec(), 3600);
    let decision_id = batch.decision_id_str().to_string();
    assert!(is_uuid_v4(&decision_id));
    let mut seen_request_ids = Vec::new();
    for (device_id, sk) in [("dev-1", &sk1), ("dev-2", &sk2)] {
        assert!(!batch.is_complete());
        let req = batch.next_request().unwrap().unwrap();
        assert_eq!(req.target_device_id, device_id);
        assert_eq!(req.decision_id, decision_id);
        assert_eq!(req.ttl_seconds, 3600);
        assert_eq!(req.authorization, "Bearer t");
        assert!(is_uuid_v4(&req.request_id));
        assert_eq!(open_for(sk, &req.kyber_ct, &req.nonce, &req.ciphertext), b"{\"a\":1}".to_vec());
        seen_request_ids.push(req.request_id.clone());
        let relay_id = if device_id == "dev-2" { "relay-id".to_string() } else { String::new() };
        batch.record(0, req.request_id, relay_id);
    }
    assert!(batch.is_complete());
    assert!(batch.next_request().unwrap().is_none());
    let outcomes = batch.into_outcomes();
    assert_eq!(outcomes.len(), 2);
    assert_eq!(outcomes[0].request_id, seen_request_ids[0]);
    assert_eq!(outcomes[1].request_id, seen_request_ids[1]);
    assert_eq!(outcomes[0].decision_id, decision_id);
    assert_eq!(outcomes[1].decision_id, "relay-id");
    assert_eq!(first_decision_id(&outcomes).unwrap(), decision_id);
}

#[test]
fn batch_stops_at_a_bad_device_key() {
    let devices = vec![NoxyIdentityDevice {
        device_id: "bad".to_string(),
        public_key: vec![],
        pq_public_key: vec![0u8; 5],
    }];
    let batch = DecisionBatch::new(
        DecisionService::new(KyberProvider::new()),
        BearerAuthorization::from_token("t").unwrap(),
        devices,
        b"x".to_vec(),
        "fixed-id".to_string(),
        60,
    );
    assert_eq!(batch.decision_id_str(), "fixed-id");
    assert_eq!(batch.next_request().unwrap_err(), DecisionError::Kyber(KyberError::InvalidPublicKey));
    let empty = DecisionBatch::new(
        DecisionService::new(KyberProvider::new()),
        BearerAuthorization::from_token("t").unwrap(),
        vec![],
        vec![],
        "e".to_string(),
        1,
    );
    assert!(empty.is_complete());
    assert!(empty.next_request().unwrap().is_none());
    assert!(empty.into_outcomes().is_empty());
}
