//! Key derivation: PBKDF2 with HMAC-SHA-256 and a fixed iteration count.
use vstd::prelude::*;
use sha2::Sha256;

verus! {

/// Length of the derived AES-256 key, in bytes.
pub const KEY_LEN: usize = 32;

/// PBKDF2 iteration count. It is not stored in the envelope, so changing it
/// makes earlier envelopes impossible to open.
pub const PBKDF2_ITERATIONS: u32 = 100_000;

/// The 32-byte PBKDF2-HMAC-SHA-256 output for a password, a salt and a
/// number of rounds.
pub uninterp spec fn pbkdf2_hmac_sha256(password: Seq<u8>, salt: Seq<u8>, rounds: u32) -> Seq<u8>;

/// Relies on `pbkdf2::pbkdf2_hmac::<Sha256>` filling a 32-byte buffer: the
/// output depends on the password, the salt and the rounds alone. HMAC takes
/// keys of any length, so the call does not fail.
#[verifier::external_body]
fn pbkdf2_sha256_32(password: &[u8], salt: &[u8], rounds: u32) -> (r: [u8; 32])
    ensures
        r@ == pbkdf2_hmac_sha256(password@, salt@, rounds),
{
    let mut key = [0u8; 32];
    pbkdf2::pbkdf2_hmac::<Sha256>(password, salt, rounds, &mut key);
    key
}

/// The key derived from a password and a salt.
pub open spec fn derived_key(password: Seq<u8>, salt: Seq<u8>) -> Seq<u8> {
    pbkdf2_hmac_sha256(password, salt, PBKDF2_ITERATIONS)
}

/// Derives the 32-byte key for a password and a salt. Deterministic; any
/// password, the empty one included, is accepted.
pub fn derive_key(password: &[u8], salt: &[u8; 16]) -> (r: [u8; 32])
    ensures
        r@ == derived_key(password@, salt@),
{
    pbkdf2_sha256_32(password, salt, PBKDF2_ITERATIONS)
}

} // verus!
