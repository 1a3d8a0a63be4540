//! Password-based file encryption: a PBKDF2-derived key, AES-256-GCM, and a
//! fixed-size envelope header holding the nonce and salt.
pub mod aead;
pub mod envelope;
pub mod error;
pub mod kdf;
pub mod random;
pub mod seal;
