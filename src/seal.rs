//! The two top-level operations. An envelope is the 28-byte header (nonce,
//! then salt) followed by the AES-256-GCM ciphertext and its tag, under the
//! key derived from the password and the salt.
use vstd::prelude::*;
use crate::aead::{
    aes256_gcm_sealed, decrypt, encrypt, MAX_CIPHERTEXT_LEN, MAX_PLAINTEXT_LEN, TAG_LEN,
};
use crate::envelope::{
    header_bytes, nonce_of, salt_of, EncryptionMetadata, HEADER_LEN, NONCE_LEN, SALT_LEN,
};
use crate::error::CryptoError;
use crate::kdf::{derive_key, derived_key};
use crate::random::{generate_nonce, generate_salt};

verus! {

/// The envelope that sealing `plaintext` under `password` gives with the
/// given salt and nonce.
pub open spec fn sealed(plaintext: Seq<u8>, password: Seq<u8>, salt: Seq<u8>, nonce: Seq<u8>) -> Seq<u8> {
    header_bytes(nonce, salt) + aes256_gcm_sealed(derived_key(password, salt), nonce, plaintext)
}

/// `envelope` is the sealing of `plaintext` under `password`, with the salt
/// and nonce that its own header holds.
pub open spec fn opens_to(envelope: Seq<u8>, password: Seq<u8>, plaintext: Seq<u8>) -> bool {
    &&& envelope.len() >= HEADER_LEN
    &&& plaintext.len() <= MAX_PLAINTEXT_LEN
    &&& envelope == sealed(plaintext, password, salt_of(envelope), nonce_of(envelope))
}

/// The header of a sealed envelope gives back the salt and nonce it was
/// sealed with.
proof fn lemma_sealed_header(plaintext: Seq<u8>, password: Seq<u8>, salt: Seq<u8>, nonce: Seq<u8>)
    requires
        salt.len() == SALT_LEN,
        nonce.len() == NONCE_LEN,
    ensures
        nonce_of(sealed(plaintext, password, salt, nonce)) == nonce,
        salt_of(sealed(plaintext, password, salt, nonce)) == salt,
        sealed(plaintext, password, salt, nonce).len() >= HEADER_LEN,
{
    let e = sealed(plaintext, password, salt, nonce);
    assert(nonce_of(e) =~= nonce);
    assert(salt_of(e) =~= salt);
}

/// Round trip: an envelope sealed from `plaintext` with `password` opens
/// under the same password to that plaintext, whatever salt and nonce were
/// drawn.
pub proof fn lemma_open_inverts_seal(plaintext: Seq<u8>, password: Seq<u8>, salt: Seq<u8>, nonce: Seq<u8>)
    requires
        salt.len() == SALT_LEN,
        nonce.len() == NONCE_LEN,
        plaintext.len() <= MAX_PLAINTEXT_LEN,
    ensures
        opens_to(sealed(plaintext, password, salt, nonce), password, plaintext),
{
    lemma_sealed_header(plaintext, password, salt, nonce);
}

/// Seals `plaintext` under `password` with a given salt and nonce: derives
/// the key, encrypts, and puts the encoded header in front. Fails with
/// `PlaintextTooLong` exactly when the plaintext exceeds `MAX_PLAINTEXT_LEN`.
pub fn seal_with(plaintext: &[u8], password: &[u8], salt: &[u8; 16], nonce: &[u8; 12]) -> (r: Result<Vec<u8>, CryptoError>)
    ensures
        r is Ok <==> plaintext@.len() <= MAX_PLAINTEXT_LEN,
        r is Err ==> r == Err::<Vec<u8>, CryptoError>(CryptoError::PlaintextTooLong),
        r is Ok ==> r->Ok_0@ == sealed(plaintext@, password@, salt@, nonce@),
        r is Ok ==> r->Ok_0@.len() == HEADER_LEN + plaintext@.len() + TAG_LEN,
        r is Ok ==> r->Ok_0@.subrange(0, HEADER_LEN as int) == header_bytes(nonce@, salt@),
{
    let key = derive_key(password, salt);
    let mut ciphertext = match encrypt(&key, nonce, plaintext) {
        Ok(c) => c,
        Err(e) => return Err(e),
    };
    let metadata = EncryptionMetadata { nonce: *nonce, salt: *salt };
    let mut out = metadata.encode();
    let ghost header = out@;
    out.append(&mut ciphertext);
    assert(out@.subrange(0, HEADER_LEN as int) =~= header);
    Ok(out)
}

/// Seals `plaintext` under `password` with a fresh random salt and nonce.
/// Whatever was drawn, the result opens under `password` to `plaintext`.
pub fn seal(plaintext: &[u8], password: &[u8]) -> (r: Result<Vec<u8>, CryptoError>)
    ensures
        r is Ok ==> exists|salt: Seq<u8>, nonce: Seq<u8>|
            salt.len() == SALT_LEN && nonce.len() == NONCE_LEN
                && r->Ok_0@ == #[trigger] sealed(plaintext@, password@, salt, nonce),
        r is Ok ==> opens_to(r->Ok_0@, password@, plaintext@),
        r is Ok ==> r->Ok_0@.len() == HEADER_LEN + plaintext@.len() + TAG_LEN,
        plaintext@.len() > MAX_PLAINTEXT_LEN ==> r is Err,
        r is Err ==> r == Err::<Vec<u8>, CryptoError>(CryptoError::RandomnessUnavailable)
            || (r == Err::<Vec<u8>, CryptoError>(CryptoError::PlaintextTooLong)
                && plaintext@.len() > MAX_PLAINTEXT_LEN),
{
    let salt = match generate_salt() {
        Ok(s) => s,
        Err(e) => return Err(e),
    };
    let nonce = match generate_nonce() {
        Ok(n) => n,
        Err(e) => return Err(e),
    };
    let r = seal_with(plaintext, password, &salt, &nonce);
    proof {
        if r is Ok {
            lemma_open_inverts_seal(plaintext@, password@, salt@, nonce@);
        }
    }
    r
}

/// Opens an envelope with `password`. Fails with `MalformedEnvelope` exactly
/// when the envelope is shorter than the header; otherwise any failure is
/// `AuthenticationFailure`, whether the password is wrong or the data was
/// altered. A returned plaintext is one that the envelope is a sealing of,
/// and an envelope that is a sealing of a plaintext opens to it.
pub fn open(envelope: &[u8], password: &[u8]) -> (r: Result<Vec<u8>, CryptoError>)
    ensures
        envelope@.len() < HEADER_LEN <==> r == Err::<Vec<u8>, CryptoError>(CryptoError::MalformedEnvelope),
        envelope@.len() >= HEADER_LEN && r is Err
            ==> r == Err::<Vec<u8>, CryptoError>(CryptoError::AuthenticationFailure),
        r is Ok ==> opens_to(envelope@, password@, r->Ok_0@),
        r is Ok ==> envelope@.len() == HEADER_LEN + r->Ok_0@.len() + TAG_LEN,
        envelope@.len() > HEADER_LEN + MAX_CIPHERTEXT_LEN
            ==> r == Err::<Vec<u8>, CryptoError>(CryptoError::AuthenticationFailure),
        envelope@.len() <= HEADER_LEN + MAX_CIPHERTEXT_LEN ==> forall|p: Seq<u8>|
            #[trigger] opens_to(envelope@, password@, p) ==> r is Ok && r->Ok_0@ == p,
{
    if envelope.len() < EncryptionMetadata::header_len() {
        return Err(CryptoError::MalformedEnvelope);
    }
    let (header, body) = envelope.split_at(EncryptionMetadata::header_len());
    let metadata = match EncryptionMetadata::decode(header) {
        Ok(m) => m,
        Err(e) => return Err(e),
    };
    proof {
        assert(metadata.nonce@ =~= nonce_of(envelope@));
        assert(header@ == metadata.spec_bytes());
        assert forall|k: int| 0 <= k < SALT_LEN implies metadata.salt@[k] == salt_of(envelope@)[k] by {
            assert(metadata.spec_bytes()[NONCE_LEN + k] == metadata.salt@[k]);
        }
        assert(metadata.salt@ =~= salt_of(envelope@));
        assert(envelope@ =~= header@ + body@);
    }
    let key = derive_key(password, &metadata.salt);
    let r = decrypt(&key, &metadata.nonce, body);
    proof {
        assert forall|p: Seq<u8>| #[trigger] opens_to(envelope@, password@, p) implies
            p.len() <= MAX_PLAINTEXT_LEN && aes256_gcm_sealed(key@, metadata.nonce@, p) == body@ by {
            let s = sealed(p, password@, salt_of(envelope@), nonce_of(envelope@));
            assert(body@ =~= s.subrange(HEADER_LEN as int, s.len() as int));
        }
    }
    r
}

} // verus!
