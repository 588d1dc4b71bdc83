//! Encryption of push notifications for one device.
use crate::crypto;
use crate::kyber_provider::KyberProvider;
use crate::services::decision::{encryption_outcome_ok, lemma_sealed_for_key, DecisionError};
use vstd::prelude::*;

verus! {

/// Encrypts push notifications per device.
#[derive(Debug, Clone, Copy)]
pub struct PushService {
    pub kyber_provider: KyberProvider,
}

impl PushService {
    pub fn new(kyber_provider: KyberProvider) -> (s: Self)
        ensures
            s.kyber_provider == kyber_provider,
    {
        PushService { kyber_provider }
    }

    /// Encrypt `plaintext` for one device: Kyber768 encapsulation to the device's
    /// post-quantum key, then AES-256-GCM under the key derived from the shared secret.
    /// Returns (kyber ciphertext, nonce, ciphertext).
    pub fn encrypt_notification(&self, device_pq_public_key: &[u8], plaintext: &[u8]) -> (r: Result<
        (Vec<u8>, Vec<u8>, Vec<u8>),
        DecisionError,
    >)
        ensures
            encryption_outcome_ok(device_pq_public_key@, plaintext@, r),
    {
        let (kyber_ct, shared_secret) = match self.kyber_provider.encapsulate(device_pq_public_key) {
            Ok(out) => out,
            Err(e) => {
                return Err(DecisionError::Kyber(e));
            },
        };
        let (ciphertext, nonce) = match crypto::encrypt(shared_secret.as_slice(), plaintext) {
            Ok(out) => out,
            Err(e) => {
                return Err(DecisionError::Crypto(e));
            },
        };
        proof {
            lemma_sealed_for_key(device_pq_public_key@, kyber_ct@, shared_secret@, nonce@, ciphertext@, plaintext@);
        }
        Ok((kyber_ct, nonce, ciphertext))
    }
}

} // verus!
