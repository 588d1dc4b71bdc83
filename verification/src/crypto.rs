//! AES-256-GCM encryption under a key derived from a shared secret with HKDF-SHA256.
use aes_gcm::aead::Aead;
use aes_gcm::aead::KeyInit;
use rand::RngCore;
use vstd::prelude::*;

verus! {

/// Length in bytes of the AES-256 key that HKDF derives.
pub const AES_KEY_LEN: usize = 32;

/// Length in bytes of the AES-GCM nonce.
pub const NONCE_LEN: usize = 12;

/// Length in bytes of the AES-GCM authentication tag appended to the ciphertext.
pub const TAG_LEN: usize = 16;

/// The largest plaintext (in bytes) that AES-GCM encrypts: 2^36.
pub open spec fn aes_gcm_max_plaintext_len() -> int {
    0x10_0000_0000
}

/// The 32-byte output of HKDF-SHA256 (no salt, empty info) on input keying material `ikm`.
pub uninterp spec fn hkdf_sha256_key(ikm: Seq<u8>) -> Seq<u8>;

/// The AES-256-GCM ciphertext of `plaintext` under `key` and `nonce`, with no associated
/// data, the 16-byte tag appended.
pub uninterp spec fn aes256gcm_seal(key: Seq<u8>, nonce: Seq<u8>, plaintext: Seq<u8>) -> Seq<u8>;

/// What `encrypt` produces for a shared secret, a nonce and a plaintext.
pub open spec fn sealed_payload(shared_secret: Seq<u8>, nonce: Seq<u8>, plaintext: Seq<u8>) -> Seq<u8> {
    aes256gcm_seal(hkdf_sha256_key(shared_secret), nonce, plaintext)
}

#[verifier::external_type_specification]
#[verifier::external_body]
pub struct ExHkdfInvalidLength(hkdf::InvalidLength);

#[verifier::external_type_specification]
#[verifier::external_body]
pub struct ExKeyInvalidLength(aes_gcm::aes::cipher::InvalidLength);

#[verifier::external_type_specification]
#[verifier::external_body]
pub struct ExAeadError(aes_gcm::Error);

/// HKDF-SHA256: `hkdf::Hkdf::<Sha256>::new(None, ikm)` followed by `expand` with empty info
/// into 32 bytes. Trusted: the result is `hkdf_sha256_key(ikm)`, 32 bytes long, and `expand`
/// succeeds, as its source only fails for outputs longer than 255 hash blocks.
#[verifier::external_body]
fn hkdf_sha256_expand(ikm: &[u8]) -> (r: Result<Vec<u8>, hkdf::InvalidLength>)
    ensures
        r is Ok,
        r matches Ok(key) ==> key@ == hkdf_sha256_key(ikm@) && key@.len() == AES_KEY_LEN,
{
    let hk = hkdf::Hkdf::<sha2::Sha256>::new(None, ikm);
    let mut key = [0u8; 32];
    match hk.expand(b"", &mut key) {
        Ok(()) => Ok(key.to_vec()),
        Err(e) => Err(e),
    }
}

/// AES-256-GCM: `Aes256Gcm::new_from_slice(key)`, then `Aead::encrypt` of `plaintext` under
/// `nonce` with no associated data. Trusted: the key is refused exactly when it is not 32
/// bytes long; encryption fails exactly when the plaintext is longer than 2^36 bytes; the
/// ciphertext is `aes256gcm_seal(key, nonce, plaintext)` and 16 bytes longer than the plaintext.
#[verifier::external_body]
fn aes256gcm_encrypt(key: &[u8], nonce: &[u8], plaintext: &[u8]) -> (r: Result<
    Result<Vec<u8>, aes_gcm::Error>,
    aes_gcm::aes::cipher::InvalidLength,
>)
    requires
        nonce@.len() == NONCE_LEN,
    ensures
        r is Ok <==> key@.len() == AES_KEY_LEN,
        r matches Ok(inner) ==> (inner is Ok <==> plaintext@.len() <= aes_gcm_max_plaintext_len()),
        r matches Ok(Ok(c)) ==> c@ == aes256gcm_seal(key@, nonce@, plaintext@) && c@.len()
            == plaintext@.len() + TAG_LEN,
{
    match aes_gcm::Aes256Gcm::new_from_slice(key) {
        Ok(cipher) => Ok(cipher.encrypt(aes_gcm::Nonce::from_slice(nonce), plaintext)),
        Err(e) => Err(e),
    }
}

/// Twelve bytes from the operating system's random number generator (`OsRng.fill_bytes`).
/// Trusted: only the length; the bytes themselves are random. The call panics if the
/// operating system cannot supply random bytes.
#[verifier::external_body]
fn random_nonce() -> (nonce: Vec<u8>)
    ensures
        nonce@.len() == NONCE_LEN,
{
    let mut nonce = [0u8; 12];
    aes_gcm::aead::OsRng.fill_bytes(&mut nonce);
    nonce.to_vec()
}

/// Why encryption failed.
#[derive(Debug, Clone, Copy, PartialEq, Eq, Structural)]
pub enum CryptoError {
    Hkdf,
    Key,
    Encrypt,
}

/// The human-readable text of an encryption error.
pub open spec fn crypto_error_text(e: CryptoError) -> Seq<char> {
    match e {
        CryptoError::Hkdf => "HKDF error"@,
        CryptoError::Key => "Invalid key"@,
        CryptoError::Encrypt => "Encryption failed"@,
    }
}

impl CryptoError {
    /// The human-readable text of the error.
    pub fn message(&self) -> (s: String)
        ensures
            s@ == crypto_error_text(*self),
    {
        match self {
            CryptoError::Hkdf => "HKDF error".to_string(),
            CryptoError::Key => "Invalid key".to_string(),
            CryptoError::Encrypt => "Encryption failed".to_string(),
        }
    }
}

/// Encrypt `plaintext` with AES-256-GCM under the key that HKDF-SHA256 derives from
/// `shared_secret`, with the given 12-byte `nonce`. Returns (ciphertext with tag, nonce).
pub fn encrypt_with_nonce(shared_secret: &[u8], plaintext: &[u8], nonce: Vec<u8>) -> (r: Result<
    (Vec<u8>, Vec<u8>),
    CryptoError,
>)
    requires
        nonce@.len() == NONCE_LEN,
    ensures
        r is Ok <==> plaintext@.len() <= aes_gcm_max_plaintext_len(),
        r matches Err(e) ==> e == CryptoError::Encrypt,
        r matches Ok(out) ==> {
            &&& out.0@ == sealed_payload(shared_secret@, nonce@, plaintext@)
            &&& out.0@.len() == plaintext@.len() + TAG_LEN
            &&& out.1@ == nonce@
        },
{
    let key = match hkdf_sha256_expand(shared_secret) {
        Ok(key) => key,
        Err(_) => {
            return Err(CryptoError::Hkdf);
        },
    };
    match aes256gcm_encrypt(key.as_slice(), nonce.as_slice(), plaintext) {
        Err(_) => Err(CryptoError::Key),
        Ok(Err(_)) => Err(CryptoError::Encrypt),
        Ok(Ok(ciphertext)) => Ok((ciphertext, nonce)),
    }
}

/// Encrypt plaintext with AES-256-GCM using a key derived from the shared secret via HKDF.
/// Returns (ciphertext_with_auth_tag, nonce); the nonce is 12 fresh random bytes.
pub fn encrypt(shared_secret: &[u8], plaintext: &[u8]) -> (r: Result<(Vec<u8>, Vec<u8>), CryptoError>)
    ensures
        r is Ok <==> plaintext@.len() <= aes_gcm_max_plaintext_len(),
        r matches Err(e) ==> e == CryptoError::Encrypt,
        r matches Ok(out) ==> {
            &&& out.1@.len() == NONCE_LEN
            &&& out.0@ == sealed_payload(shared_secret@, out.1@, plaintext@)
            &&& out.0@.len() == plaintext@.len() + TAG_LEN
        },
{
    let nonce = random_nonce();
    encrypt_with_nonce(shared_secret, plaintext, nonce)
}

} // verus!
