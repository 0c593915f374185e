use keyguard::aead::{aes_gcm_decrypt, aes_gcm_encrypt};
use keyguard::codec::{decode, encode};
use keyguard::errors::ProtectionError;
use keyguard::kdf::derive_encryption_key;

#[test]
fn derivation_is_deterministic() {
    let salt = [7u8; 16];
    let first = derive_encryption_key("correct password", &salt).expect("derivation succeeds");
    let second = derive_encryption_key("correct password", &salt).expect("derivation succeeds");
    assert_eq!(first, second);
}

#[test]
fn derivation_depends_on_salt_and_password() {
    let salt = [7u8; 16];
    let other_salt = [8u8; 16];
    let key = derive_encryption_key("correct password", &salt).expect("derivation succeeds");
    let other_salt_key =
        derive_encryption_key("correct password", &other_salt).expect("derivation succeeds");
    let other_password_key =
        derive_encryption_key("other password", &salt).expect("derivation succeeds");
    assert_ne!(key, other_salt_key);
    assert_ne!(key, other_password_key);
    // The stretch is real work, not a copy of its inputs.
    assert_ne!(key, [0u8; 32]);
    assert_ne!(&key[..], "correct password".as_bytes());
}

#[test]
fn seal_and_open_under_one_key() {
    let key = [3u8; 32];
    let plaintext = b"attack at dawn".to_vec();
    let (ciphertext, nonce) = aes_gcm_encrypt(&plaintext, &key).expect("entropy available");
    assert_eq!(nonce.len(), 12);
    assert_eq!(ciphertext.len(), plaintext.len() + 16);
    // The sealing is no copy of the plaintext.
    assert_ne!(&ciphertext[..plaintext.len()], &plaintext[..]);
    let opened = aes_gcm_decrypt(&ciphertext, &key, &nonce).expect("tag verifies");
    assert_eq!(opened, plaintext);
}

#[test]
fn opening_under_another_key_or_nonce_fails() {
    let key = [3u8; 32];
    let other_key = [4u8; 32];
    let plaintext = b"attack at dawn".to_vec();
    let (ciphertext, nonce) = aes_gcm_encrypt(&plaintext, &key).expect("entropy available");
    assert_eq!(
        aes_gcm_decrypt(&ciphertext, &other_key, &nonce),
        Err(ProtectionError::AuthenticationFailure)
    );
    let mut other_nonce = nonce.clone();
    other_nonce[0] ^= 0xff;
    assert_eq!(
        aes_gcm_decrypt(&ciphertext, &key, &other_nonce),
        Err(ProtectionError::AuthenticationFailure)
    );
}

#[test]
fn encode_concatenates_in_order() {
    let salt = [0x11u8; 16];
    let nonce = [0x22u8; 12];
    let ciphertext = [1u8, 2, 3];
    let blob = encode(&salt, &nonce, &ciphertext);
    assert_eq!(blob.len(), 31);
    assert_eq!(&blob[..16], &salt[..]);
    assert_eq!(&blob[16..28], &nonce[..]);
    assert_eq!(&blob[28..], &ciphertext[..]);
}

#[test]
fn decode_splits_at_fixed_offsets() {
    let mut blob = Vec::new();
    for i in 0..30u8 {
        blob.push(i);
    }
    let (salt, nonce, ciphertext) = decode(&blob).expect("long enough");
    assert_eq!(salt, (0..16).collect::<Vec<u8>>());
    assert_eq!(nonce, (16..28).collect::<Vec<u8>>());
    assert_eq!(ciphertext, vec![28u8, 29]);
}

#[test]
fn decode_rejects_short_blobs() {
    assert_eq!(decode(&[0u8; 27]), Err(ProtectionError::FormatError));
    let exact = [0u8; 28];
    let (salt, nonce, ciphertext) = decode(&exact).expect("header fits exactly");
    assert_eq!(salt, vec![0u8; 16]);
    assert_eq!(nonce, vec![0u8; 12]);
    assert!(ciphertext.is_empty());
}

#[test]
fn codec_round_trip() {
    let salt = [9u8; 16];
    let nonce = [8u8; 12];
    let ciphertext = b"opaque bytes".to_vec();
    let blob = encode(&salt, &nonce, &ciphertext);
    let (salt_back, nonce_back, ciphertext_back) = decode(&blob).expect("well formed");
    assert_eq!(salt_back, salt.to_vec());
    assert_eq!(nonce_back, nonce.to_vec());
    assert_eq!(ciphertext_back, ciphertext);
}
