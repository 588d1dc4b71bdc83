//! Kyber768 post-quantum key encapsulation for decision encryption.
use pqcrypto_traits::kem::{Ciphertext, PublicKey, SharedSecret};
use vstd::prelude::*;

verus! {

/// Length in bytes of a Kyber768 public key.
pub const KYBER_PUBLIC_KEY_LEN: usize = 1184;

/// Length in bytes of a Kyber768 ciphertext.
pub const KYBER_CIPHERTEXT_LEN: usize = 1088;

/// Length in bytes of a Kyber768 shared secret.
pub const KYBER_SHARED_SECRET_LEN: usize = 32;

#[verifier::external_type_specification]
#[verifier::external_body]
pub struct ExPqcryptoError(pqcrypto_traits::Error);

/// The Kyber768 ciphertext that encapsulation to public key `public_key` produces from the
/// 32 random coins `coins` (`crypto_kem_enc_derand`).
pub uninterp spec fn kyber768_encaps_ciphertext(public_key: Seq<u8>, coins: Seq<u8>) -> Seq<u8>;

/// The Kyber768 shared secret that encapsulation to public key `public_key` produces from the
/// 32 random coins `coins` (`crypto_kem_enc_derand`).
pub uninterp spec fn kyber768_encaps_secret(public_key: Seq<u8>, coins: Seq<u8>) -> Seq<u8>;

/// (`ciphertext`, `secret`) is an encapsulation to `public_key`: what Kyber768 produces from
/// that key and some 32 coins.
pub open spec fn is_encapsulation(public_key: Seq<u8>, ciphertext: Seq<u8>, secret: Seq<u8>) -> bool {
    exists|coins: Seq<u8>|
        coins.len() == 32 && #[trigger] kyber768_encaps_ciphertext(public_key, coins) == ciphertext
            && kyber768_encaps_secret(public_key, coins) == secret
}

/// `<kyber768::PublicKey as kem::PublicKey>::from_bytes(public_key)`, then
/// `kyber768::encapsulate` of that key, returning (ciphertext bytes, shared secret bytes).
/// Trusted: the key is refused exactly when it is not 1184 bytes long; otherwise PQClean's
/// `crypto_kem_enc` draws 32 random coins and returns `crypto_kem_enc_derand(key, coins)`,
/// a 1088-byte ciphertext and a 32-byte secret. The coins themselves are random.
#[verifier::external_body]
fn kyber768_encapsulate(public_key: &[u8]) -> (r: Result<(Vec<u8>, Vec<u8>), pqcrypto_traits::Error>)
    ensures
        r is Ok <==> public_key@.len() == KYBER_PUBLIC_KEY_LEN,
        r matches Ok(out) ==> {
            &&& out.0@.len() == KYBER_CIPHERTEXT_LEN
            &&& out.1@.len() == KYBER_SHARED_SECRET_LEN
            &&& exists|coins: Seq<u8>|
                coins.len() == 32 && #[trigger] kyber768_encaps_ciphertext(public_key@, coins)
                    == out.0@ && kyber768_encaps_secret(public_key@, coins) == out.1@
        },
{
    match pqcrypto_kyber::kyber768::PublicKey::from_bytes(public_key) {
        Ok(pk) => {
            let (ss, ct) = pqcrypto_kyber::kyber768::encapsulate(&pk);
            Ok((ct.as_bytes().to_vec(), ss.as_bytes().to_vec()))
        },
        Err(e) => Err(e),
    }
}

/// Why encapsulation failed.
#[derive(Debug, Clone, Copy, PartialEq, Eq, Structural)]
pub enum KyberError {
    InvalidPublicKey,
}

/// The human-readable text of an encapsulation error.
pub open spec fn kyber_error_text(e: KyberError) -> Seq<char> {
    match e {
        KyberError::InvalidPublicKey => "Invalid Kyber public key"@,
    }
}

impl KyberError {
    /// The human-readable text of the error.
    pub fn message(&self) -> (s: String)
        ensures
            s@ == kyber_error_text(*self),
    {
        match self {
            KyberError::InvalidPublicKey => "Invalid Kyber public key".to_string(),
        }
    }
}

/// Kyber768 provider for encapsulating shared secrets with device public keys.
#[derive(Debug, Clone, Copy)]
pub struct KyberProvider;

impl KyberProvider {
    pub fn new() -> (p: Self) {
        KyberProvider
    }

    /// Encapsulate a shared secret using the device's post-quantum public key.
    /// Returns (kyber_ciphertext, shared_secret): 1088 bytes for the ciphertext, 32 for the
    /// shared secret, both Kyber768's encapsulation to the key under 32 random coins. A key
    /// that is not 1184 bytes long is refused.
    pub fn encapsulate(&self, public_key: &[u8]) -> (r: Result<(Vec<u8>, Vec<u8>), KyberError>)
        ensures
            r is Ok <==> public_key@.len() == KYBER_PUBLIC_KEY_LEN,
            r matches Err(e) ==> e == KyberError::InvalidPublicKey,
            r matches Ok(out) ==> {
                &&& out.0@.len() == KYBER_CIPHERTEXT_LEN
                &&& out.1@.len() == KYBER_SHARED_SECRET_LEN
                &&& is_encapsulation(public_key@, out.0@, out.1@)
            },
    {
        match kyber768_encapsulate(public_key) {
            Ok(out) => Ok(out),
            Err(_) => Err(KyberError::InvalidPublicKey),
        }
    }
}

impl Default for KyberProvider {
    fn default() -> (p: Self) {
        KyberProvider::new()
    }
}

} // verus!
