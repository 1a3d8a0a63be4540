//! The envelope header: the nonce followed by the salt, raw, with no framing.
//! Both directions of the codec take the header length from `HEADER_LEN`.
use vstd::prelude::*;
use crate::error::CryptoError;

verus! {

/// Length of the AES-GCM nonce, in bytes.
pub const NONCE_LEN: usize = 12;

/// Length of the key-derivation salt, in bytes.
pub const SALT_LEN: usize = 16;

/// Length of the serialized header: the nonce, then the salt.
pub const HEADER_LEN: usize = NONCE_LEN + SALT_LEN;

/// The header bytes for a nonce and a salt.
pub open spec fn header_bytes(nonce: Seq<u8>, salt: Seq<u8>) -> Seq<u8> {
    nonce + salt
}

/// The nonce stored in an envelope's header.
pub open spec fn nonce_of(envelope: Seq<u8>) -> Seq<u8> {
    envelope.subrange(0, NONCE_LEN as int)
}

/// The salt stored in an envelope's header.
pub open spec fn salt_of(envelope: Seq<u8>) -> Seq<u8> {
    envelope.subrange(NONCE_LEN as int, HEADER_LEN as int)
}

/// Every header has the same length, whatever bytes its nonce and salt hold.
pub proof fn lemma_header_len_fixed(nonce1: Seq<u8>, salt1: Seq<u8>, nonce2: Seq<u8>, salt2: Seq<u8>)
    requires
        nonce1.len() == NONCE_LEN,
        nonce2.len() == NONCE_LEN,
        salt1.len() == SALT_LEN,
        salt2.len() == SALT_LEN,
    ensures
        header_bytes(nonce1, salt1).len() == header_bytes(nonce2, salt2).len(),
        header_bytes(nonce1, salt1).len() == HEADER_LEN,
{
}

/// The header codec is a bijection: a header gives back the nonce and salt
/// it was made from, and a header is determined by the nonce and salt read
/// out of it.
pub proof fn lemma_header_bijective(nonce: Seq<u8>, salt: Seq<u8>, header: Seq<u8>)
    requires
        nonce.len() == NONCE_LEN,
        salt.len() == SALT_LEN,
        header.len() == HEADER_LEN,
    ensures
        nonce_of(header_bytes(nonce, salt)) == nonce,
        salt_of(header_bytes(nonce, salt)) == salt,
        header_bytes(nonce_of(header), salt_of(header)) == header,
{
    assert(nonce_of(header_bytes(nonce, salt)) =~= nonce);
    assert(salt_of(header_bytes(nonce, salt)) =~= salt);
    assert(header_bytes(nonce_of(header), salt_of(header)) =~= header);
}

/// The per-envelope parameters that precede the ciphertext.
#[derive(Debug, Clone, Copy, PartialEq, Eq)]
pub struct EncryptionMetadata {
    pub nonce: [u8; 12],
    pub salt: [u8; 16],
}

impl EncryptionMetadata {
    /// The header this metadata serializes to.
    pub open spec fn spec_bytes(&self) -> Seq<u8> {
        header_bytes(self.nonce@, self.salt@)
    }

    /// The length of every serialized header.
    pub fn header_len() -> (r: usize)
        ensures
            r == HEADER_LEN,
    {
        HEADER_LEN
    }

    /// Serializes the header: the 12 nonce bytes, then the 16 salt bytes.
    pub fn encode(&self) -> (r: Vec<u8>)
        ensures
            r@ == self.spec_bytes(),
            r@.len() == HEADER_LEN,
    {
        let mut out: Vec<u8> = Vec::with_capacity(HEADER_LEN);
        let mut i: usize = 0;
        while i < NONCE_LEN
            invariant
                i <= NONCE_LEN,
                out@ == self.nonce@.subrange(0, i as int),
            decreases NONCE_LEN - i,
        {
            out.push(self.nonce[i]);
            i = i + 1;
        }
        assert(self.nonce@.subrange(0, NONCE_LEN as int) =~= self.nonce@);
        let mut j: usize = 0;
        while j < SALT_LEN
            invariant
                j <= SALT_LEN,
                out@ == self.nonce@ + self.salt@.subrange(0, j as int),
            decreases SALT_LEN - j,
        {
            out.push(self.salt[j]);
            proof {
                assert(self.salt@.subrange(0, j + 1) =~= self.salt@.subrange(0, j as int).push(self.salt@[j as int]));
            }
            j = j + 1;
        }
        assert(self.salt@.subrange(0, SALT_LEN as int) =~= self.salt@);
        out
    }

    /// Parses a header. Fails with `MalformedEnvelope` unless `bytes` holds
    /// exactly `HEADER_LEN` bytes.
    pub fn decode(bytes: &[u8]) -> (r: Result<EncryptionMetadata, CryptoError>)
        ensures
            bytes@.len() == HEADER_LEN <==> r is Ok,
            r is Err ==> r == Err::<EncryptionMetadata, CryptoError>(CryptoError::MalformedEnvelope),
            r matches Ok(m) ==> m.spec_bytes() == bytes@,
    {
        if bytes.len() != HEADER_LEN {
            return Err(CryptoError::MalformedEnvelope);
        }
        let mut nonce: [u8; 12] = [0u8; 12];
        let mut i: usize = 0;
        while i < NONCE_LEN
            invariant
                i <= NONCE_LEN,
                bytes@.len() == HEADER_LEN,
                forall|k: int| 0 <= k < i ==> nonce@[k] == bytes@[k],
            decreases NONCE_LEN - i,
        {
            nonce[i] = bytes[i];
            i = i + 1;
        }
        let mut salt: [u8; 16] = [0u8; 16];
        let mut j: usize = 0;
        while j < SALT_LEN
            invariant
                j <= SALT_LEN,
                bytes@.len() == HEADER_LEN,
                forall|k: int| 0 <= k < j ==> salt@[k] == bytes@[NONCE_LEN + k],
            decreases SALT_LEN - j,
        {
            salt[j] = bytes[NONCE_LEN + j];
            j = j + 1;
        }
        let m = EncryptionMetadata { nonce, salt };
        assert(m.spec_bytes() =~= bytes@);
        Ok(m)
    }
}

} // verus!
