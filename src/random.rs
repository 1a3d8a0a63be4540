//! Fresh salts and nonces from the operating system's entropy source.
use vstd::prelude::*;
use rand::RngCore;
use crate::error::CryptoError;

verus! {

#[verifier::external_type_specification]
#[verifier::external_body]
pub struct ExRandError(rand::Error);

/// Relies on `rand::rngs::OsRng::try_fill_bytes`, which reports a failure of
/// the entropy source as an error instead of panicking. Nothing is promised
/// of the bytes.
#[verifier::external_body]
fn os_random_bytes<const N: usize>() -> (r: Result<[u8; N], rand::Error>) {
    let mut buf = [0u8; N];
    match rand::rngs::OsRng.try_fill_bytes(&mut buf) {
        Ok(()) => Ok(buf),
        Err(e) => Err(e),
    }
}

/// A fresh random 16-byte salt.
pub fn generate_salt() -> (r: Result<[u8; 16], CryptoError>)
    ensures
        r is Err ==> r == Err::<[u8; 16], CryptoError>(CryptoError::RandomnessUnavailable),
{
    match os_random_bytes::<16>() {
        Ok(salt) => Ok(salt),
        Err(_) => Err(CryptoError::RandomnessUnavailable),
    }
}

/// A fresh random 12-byte nonce, drawn independently of any salt.
pub fn generate_nonce() -> (r: Result<[u8; 12], CryptoError>)
    ensures
        r is Err ==> r == Err::<[u8; 12], CryptoError>(CryptoError::RandomnessUnavailable),
{
    match os_random_bytes::<12>() {
        Ok(nonce) => Ok(nonce),
        Err(_) => Err(CryptoError::RandomnessUnavailable),
    }
}

} // verus!
