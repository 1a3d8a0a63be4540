use filecrypt::aead::{decrypt, encrypt, MAX_CIPHERTEXT_LEN, MAX_PLAINTEXT_LEN, TAG_LEN};
use filecrypt::envelope::{EncryptionMetadata, HEADER_LEN, NONCE_LEN, SALT_LEN};
use filecrypt::error::CryptoError;
use filecrypt::kdf::{derive_key, KEY_LEN, PBKDF2_ITERATIONS};
use filecrypt::random::{generate_nonce, generate_salt};
use filecrypt::seal::{open, seal, seal_with};

fn hex(s: &str) -> Vec<u8> {
    (0..s.len())
        .step_by(2)
        .map(|i| u8::from_str_radix(&s[i..i + 2], 16).unwrap())
        .collect()
}

#[test]
fn constants_describe_the_layout() {
    assert_eq!(NONCE_LEN, 12);
    assert_eq!(SALT_LEN, 16);
    assert_eq!(HEADER_LEN, 28);
    assert_eq!(KEY_LEN, 32);
    assert_eq!(TAG_LEN, 16);
    assert_eq!(PBKDF2_ITERATIONS, 100_000);
    assert_eq!(MAX_PLAINTEXT_LEN, 1u64 << 36);
    assert_eq!(MAX_CIPHERTEXT_LEN, MAX_PLAINTEXT_LEN + 16);
    assert_eq!(EncryptionMetadata::header_len(), 28);
}

#[test]
fn encode_puts_nonce_then_salt() {
    let nonce: [u8; 12] = [1, 2, 3, 4, 5, 6, 7, 8, 9, 10, 11, 12];
    let salt: [u8; 16] = [0xA0; 16];
    let bytes = EncryptionMetadata { nonce, salt }.encode();
    assert_eq!(bytes.len(), 28);
    assert_eq!(&bytes[..12], &nonce[..]);
    assert_eq!(&bytes[12..], &salt[..]);
}

#[test]
fn encode_matches_bincode_layout() {
    let nonce: [u8; 12] = [7; 12];
    let salt: [u8; 16] = [0, 1, 2, 3, 4, 5, 6, 7, 8, 9, 10, 11, 12, 13, 14, 15];
    let expected = bincode::serialize(&(nonce, salt)).unwrap();
    assert_eq!(EncryptionMetadata { nonce, salt }.encode(), expected);
}

#[test]
fn header_length_does_not_depend_on_contents() {
    let a = EncryptionMetadata { nonce: [0; 12], salt: [0; 16] }.encode();
    let b = EncryptionMetadata { nonce: [0xFF; 12], salt: [0x5A; 16] }.encode();
    assert_eq!(a.len(), b.len());
    assert_eq!(a.len(), HEADER_LEN);
}

#[test]
fn decode_inverts_encode() {
    let m = EncryptionMetadata { nonce: [9, 8, 7, 6, 5, 4, 3, 2, 1, 0, 255, 254], salt: [0x33; 16] };
    let back = EncryptionMetadata::decode(&m.encode()).unwrap();
    assert_eq!(back, m);
}

#[test]
fn decode_rejects_wrong_lengths() {
    assert_eq!(EncryptionMetadata::decode(&[0u8; 27]), Err(CryptoError::MalformedEnvelope));
    assert_eq!(EncryptionMetadata::decode(&[0u8; 29]), Err(CryptoError::MalformedEnvelope));
    assert_eq!(EncryptionMetadata::decode(&[]), Err(CryptoError::MalformedEnvelope));
}

#[test]
fn derive_key_is_deterministic_and_depends_on_inputs() {
    let salt = [0x11u8; 16];
    let k1 = derive_key(b"password", &salt);
    let k2 = derive_key(b"password", &salt);
    assert_eq!(k1, k2);
    assert_ne!(k1, derive_key(b"passwore", &salt));
    assert_ne!(k1, derive_key(b"password", &[0x12u8; 16]));
    assert_ne!(&k1[..16], &salt[..]);
    assert_ne!(k1, [0u8; 32]);
}

#[test]
fn derive_key_accepts_empty_password() {
    let salt = [0u8; 16];
    assert_eq!(derive_key(b"", &salt), derive_key(b"", &salt));
}

#[test]
fn encrypt_known_answer_empty_plaintext() {
    let c = encrypt(&[0u8; 32], &[0u8; 12], &[]).unwrap();
    assert_eq!(c, hex("530f8afbc74536b9a963b4f1c4cb738b"));
}

#[test]
fn encrypt_known_answer_one_block() {
    let c = encrypt(&[0u8; 32], &[0u8; 12], &[0u8; 16]).unwrap();
    assert_eq!(c, hex("cea7403d4d606b6e074ec5d3baf39d18d0d1c8a799996bf0265b98b5d48ab919"));
}

#[test]
fn decrypt_inverts_encrypt() {
    let key = [0x42u8; 32];
    let nonce = [0x24u8; 12];
    let c = encrypt(&key, &nonce, b"attack at dawn").unwrap();
    assert_eq!(c.len(), 14 + TAG_LEN);
    assert_eq!(decrypt(&key, &nonce, &c).unwrap(), b"attack at dawn".to_vec());
}

#[test]
fn decrypt_rejects_every_single_bit_flip() {
    let key = [0x42u8; 32];
    let nonce = [0x24u8; 12];
    let c = encrypt(&key, &nonce, b"hello").unwrap();
    for i in 0..c.len() {
        for bit in 0..8 {
            let mut t = c.clone();
            t[i] ^= 1 << bit;
            assert_eq!(decrypt(&key, &nonce, &t), Err(CryptoError::AuthenticationFailure));
        }
    }
}

#[test]
fn decrypt_rejects_wrong_key_nonce_and_short_input() {
    let key = [0x42u8; 32];
    let nonce = [0x24u8; 12];
    let c = encrypt(&key, &nonce, b"hello").unwrap();
    assert_eq!(decrypt(&[0x43u8; 32], &nonce, &c), Err(CryptoError::AuthenticationFailure));
    assert_eq!(decrypt(&key, &[0x25u8; 12], &c), Err(CryptoError::AuthenticationFailure));
    assert_eq!(decrypt(&key, &nonce, &c[..15]), Err(CryptoError::AuthenticationFailure));
    assert_eq!(decrypt(&key, &nonce, &[]), Err(CryptoError::AuthenticationFailure));
}

#[test]
fn seal_hello_has_expected_length_and_opens() {
    let env = seal(b"hello", b"correct horse").unwrap();
    assert_eq!(env.len(), 49);
    assert_eq!(open(&env, b"correct horse").unwrap(), b"hello".to_vec());
    assert_eq!(open(&env, b"wrong horse"), Err(CryptoError::AuthenticationFailure));
}

#[test]
fn seal_empty_input_opens_to_empty() {
    let env = seal(b"", b"pw").unwrap();
    assert_eq!(env.len(), HEADER_LEN + TAG_LEN);
    assert_eq!(open(&env, b"pw").unwrap(), Vec::<u8>::new());
}

#[test]
fn seal_is_not_deterministic_but_both_open() {
    let a = seal(b"same input", b"same password").unwrap();
    let b = seal(b"same input", b"same password").unwrap();
    assert_ne!(a, b);
    assert_ne!(&a[..HEADER_LEN], &b[..HEADER_LEN]);
    assert_eq!(open(&a, b"same password").unwrap(), b"same input".to_vec());
    assert_eq!(open(&b, b"same password").unwrap(), b"same input".to_vec());
}

#[test]
fn seal_with_fixed_parameters_is_reproducible() {
    let salt = [3u8; 16];
    let nonce = [5u8; 12];
    let a = seal_with(b"data", b"pw", &salt, &nonce).unwrap();
    let b = seal_with(b"data", b"pw", &salt, &nonce).unwrap();
    assert_eq!(a, b);
    assert_eq!(&a[..12], &nonce[..]);
    assert_eq!(&a[12..28], &salt[..]);
    let key = derive_key(b"pw", &salt);
    assert_eq!(&a[28..], &encrypt(&key, &nonce, b"data").unwrap()[..]);
    assert_eq!(open(&a, b"pw").unwrap(), b"data".to_vec());
}

#[test]
fn round_trip_on_binary_data() {
    let data: Vec<u8> = (0..=255u8).chain(0..=255u8).collect();
    let env = seal(&data, b"\x00\xffbinary password").unwrap();
    assert_eq!(env.len(), HEADER_LEN + data.len() + TAG_LEN);
    assert_eq!(open(&env, b"\x00\xffbinary password").unwrap(), data);
}

#[test]
fn round_trip_with_empty_password() {
    let env = seal(b"weak but valid", b"").unwrap();
    assert_eq!(open(&env, b"").unwrap(), b"weak but valid".to_vec());
}

#[test]
fn open_rejects_wrong_password() {
    let env = seal(b"secret", b"alpha").unwrap();
    assert_eq!(open(&env, b"beta"), Err(CryptoError::AuthenticationFailure));
    assert_eq!(open(&env, b""), Err(CryptoError::AuthenticationFailure));
}

#[test]
fn open_detects_tampering_in_ciphertext_and_tag() {
    let env = seal(b"hello", b"pw").unwrap();
    let mut body_flip = env.clone();
    body_flip[HEADER_LEN] ^= 0x01;
    assert_eq!(open(&body_flip, b"pw"), Err(CryptoError::AuthenticationFailure));
    let mut tag_flip = env.clone();
    let last = tag_flip.len() - 1;
    tag_flip[last] ^= 0x80;
    assert_eq!(open(&tag_flip, b"pw"), Err(CryptoError::AuthenticationFailure));
}

#[test]
fn open_detects_tampering_in_header() {
    let env = seal(b"hello", b"pw").unwrap();
    let mut nonce_flip = env.clone();
    nonce_flip[0] ^= 0x01;
    assert_eq!(open(&nonce_flip, b"pw"), Err(CryptoError::AuthenticationFailure));
}

#[test]
fn open_rejects_truncated_envelopes() {
    assert_eq!(open(&[], b"pw"), Err(CryptoError::MalformedEnvelope));
    assert_eq!(open(&[0u8; 27], b"pw"), Err(CryptoError::MalformedEnvelope));
    let env = seal(b"hello", b"pw").unwrap();
    assert_eq!(open(&env[..HEADER_LEN - 1], b"pw"), Err(CryptoError::MalformedEnvelope));
}

#[test]
fn open_of_header_only_fails_authentication() {
    let env = seal(b"hello", b"pw").unwrap();
    assert_eq!(open(&env[..HEADER_LEN], b"pw"), Err(CryptoError::AuthenticationFailure));
    assert_eq!(open(&env[..HEADER_LEN + 5], b"pw"), Err(CryptoError::AuthenticationFailure));
}

#[test]
fn generated_salts_and_nonces_differ() {
    let s1 = generate_salt().unwrap();
    let s2 = generate_salt().unwrap();
    assert_ne!(s1, s2);
    let n1 = generate_nonce().unwrap();
    let n2 = generate_nonce().unwrap();
    assert_ne!(n1, n2);
}

#[test]
fn error_messages_are_distinct() {
    let all = [
        CryptoError::MalformedEnvelope,
        CryptoError::AuthenticationFailure,
        CryptoError::KeyDerivationError,
        CryptoError::PlaintextTooLong,
        CryptoError::RandomnessUnavailable,
    ];
    for (i, a) in all.iter().enumerate() {
        assert!(!a.message().is_empty());
        for b in all.iter().skip(i + 1) {
            assert_ne!(a.message(), b.message());
        }
    }
}
