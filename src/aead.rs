//! Authenticated encryption with AES-256-GCM, empty associated data, and the
//! 16-byte tag appended to the ciphertext.
use vstd::prelude::*;
use aes_gcm::aead::{Aead, KeyInit};
use aes_gcm::{Aes256Gcm, Key, Nonce};
use crate::error::CryptoError;

verus! {

/// Length of the authentication tag appended to every ciphertext.
pub const TAG_LEN: usize = 16;

/// Longest plaintext AES-GCM encrypts under one nonce: 2^36 bytes, aes-gcm's
/// `P_MAX`.
pub const MAX_PLAINTEXT_LEN: u64 = 68_719_476_736;

/// Longest ciphertext that encrypting a plaintext of `MAX_PLAINTEXT_LEN`
/// bytes can give.
pub const MAX_CIPHERTEXT_LEN: u64 = MAX_PLAINTEXT_LEN + 16;

#[verifier::external_type_specification]
#[verifier::external_body]
pub struct ExAeadError(aes_gcm::Error);

/// The AES-256-GCM sealing (ciphertext, then tag) of a plaintext under a key
/// and a nonce, with empty associated data.
pub uninterp spec fn aes256_gcm_sealed(key: Seq<u8>, nonce: Seq<u8>, plaintext: Seq<u8>) -> Seq<u8>;

/// Relies on `Aead::encrypt` of `aes_gcm::Aes256Gcm`: it fails only for a
/// plaintext over 2^36 bytes; otherwise it returns the ciphertext, as long as
/// the plaintext, followed by the 16-byte tag, a function of key, nonce and
/// plaintext alone.
#[verifier::external_body]
fn aes256_gcm_encrypt(key: &[u8; 32], nonce: &[u8; 12], plaintext: &[u8]) -> (r: Result<Vec<u8>, aes_gcm::Error>)
    requires
        plaintext@.len() <= MAX_PLAINTEXT_LEN,
    ensures
        r is Ok,
        r->Ok_0@ == aes256_gcm_sealed(key@, nonce@, plaintext@),
        r->Ok_0@.len() == plaintext@.len() + TAG_LEN,
{
    let cipher = Aes256Gcm::new(Key::<Aes256Gcm>::from_slice(key));
    cipher.encrypt(Nonce::from_slice(nonce), plaintext)
}

/// Relies on `Aead::decrypt` of `aes_gcm::Aes256Gcm`: it returns a plaintext
/// only when the tag verifies, and then the plaintext is the one whose
/// encryption under the same key and nonce is exactly the input; every
/// correct encryption verifies. AES-GCM encryption is deterministic, so the
/// two directions agree.
#[verifier::external_body]
fn aes256_gcm_decrypt(key: &[u8; 32], nonce: &[u8; 12], ciphertext: &[u8]) -> (r: Result<Vec<u8>, aes_gcm::Error>)
    requires
        ciphertext@.len() <= MAX_CIPHERTEXT_LEN,
    ensures
        r is Ok ==> r->Ok_0@.len() + TAG_LEN == ciphertext@.len(),
        r is Ok ==> aes256_gcm_sealed(key@, nonce@, r->Ok_0@) == ciphertext@,
        forall|p: Seq<u8>|
            #![trigger aes256_gcm_sealed(key@, nonce@, p)]
            p.len() <= MAX_PLAINTEXT_LEN && aes256_gcm_sealed(key@, nonce@, p) == ciphertext@
                ==> r is Ok && r->Ok_0@ == p,
{
    let cipher = Aes256Gcm::new(Key::<Aes256Gcm>::from_slice(key));
    cipher.decrypt(Nonce::from_slice(nonce), ciphertext)
}

/// Encrypts `data` and appends the tag. Fails with `PlaintextTooLong` exactly
/// when `data` is longer than `MAX_PLAINTEXT_LEN`.
pub fn encrypt(key: &[u8; 32], nonce: &[u8; 12], data: &[u8]) -> (r: Result<Vec<u8>, CryptoError>)
    ensures
        r is Ok <==> data@.len() <= MAX_PLAINTEXT_LEN,
        r is Err ==> r == Err::<Vec<u8>, CryptoError>(CryptoError::PlaintextTooLong),
        r matches Ok(c) ==> c@ == aes256_gcm_sealed(key@, nonce@, data@)
            && c@.len() == data@.len() + TAG_LEN,
{
    if data.len() as u64 > MAX_PLAINTEXT_LEN {
        return Err(CryptoError::PlaintextTooLong);
    }
    match aes256_gcm_encrypt(key, nonce, data) {
        Ok(c) => Ok(c),
        Err(_) => Err(CryptoError::PlaintextTooLong),
    }
}

/// Verifies and decrypts a ciphertext with its appended tag. All or nothing:
/// on any failure no plaintext is returned, only `AuthenticationFailure`.
pub fn decrypt(key: &[u8; 32], nonce: &[u8; 12], ciphertext: &[u8]) -> (r: Result<Vec<u8>, CryptoError>)
    ensures
        r matches Ok(p) ==> p@.len() <= MAX_PLAINTEXT_LEN
            && p@.len() + TAG_LEN == ciphertext@.len()
            && aes256_gcm_sealed(key@, nonce@, p@) == ciphertext@,
        ciphertext@.len() <= MAX_CIPHERTEXT_LEN ==> forall|p: Seq<u8>|
            #![trigger aes256_gcm_sealed(key@, nonce@, p)]
            p.len() <= MAX_PLAINTEXT_LEN && aes256_gcm_sealed(key@, nonce@, p) == ciphertext@
                ==> (r matches Ok(q) && q@ == p),
        r is Err ==> r == Err::<Vec<u8>, CryptoError>(CryptoError::AuthenticationFailure),
{
    if ciphertext.len() as u64 > MAX_CIPHERTEXT_LEN {
        return Err(CryptoError::AuthenticationFailure);
    }
    match aes256_gcm_decrypt(key, nonce, ciphertext) {
        Ok(p) => Ok(p),
        Err(_) => Err(CryptoError::AuthenticationFailure),
    }
}

} // verus!
