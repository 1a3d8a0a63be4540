use vstd::prelude::*;

verus! {

/// Why sealing or opening an envelope failed.
#[derive(Debug, Clone, Copy, PartialEq, Eq, Structural)]
pub enum CryptoError {
    /// The envelope is shorter than the header, or the header does not decode.
    MalformedEnvelope,
    /// The authentication tag did not verify: wrong password, or corrupted or
    /// tampered data. The two are deliberately not told apart.
    AuthenticationFailure,
    /// Key derivation failed. Not reachable with the fixed 32-byte
    /// HMAC-SHA-256 configuration; kept so that the error taxonomy is complete.
    KeyDerivationError,
    /// The plaintext is longer than AES-GCM can encrypt under one nonce.
    PlaintextTooLong,
    /// The operating system's entropy source could not supply random bytes.
    RandomnessUnavailable,
}

impl CryptoError {
    /// A human-readable description of the error.
    pub fn message(&self) -> (r: String) {
        match self {
            CryptoError::MalformedEnvelope => "malformed envelope".to_string(),
            CryptoError::AuthenticationFailure => "authentication failed: wrong password or corrupted data".to_string(),
            CryptoError::KeyDerivationError => "key derivation failed".to_string(),
            CryptoError::PlaintextTooLong => "plaintext too long to encrypt".to_string(),
            CryptoError::RandomnessUnavailable => "no random bytes available".to_string(),
        }
    }
}

} // verus!
