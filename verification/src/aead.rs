//! Authenticated encryption with AES-256-GCM.
//!
//! Sealing appends a 16-byte authentication tag to the ciphertext; opening
//! verifies the tag and is fail-closed: a wrong key, a wrong nonce or any
//! altered ciphertext byte yields one undifferentiated authentication
//! failure, never a corrupted plaintext.

use aes_gcm::aead::{Aead, KeyInit};
use aes_gcm::{Aes256Gcm, Key, Nonce};
use vstd::prelude::*;

use crate::codec::NONCE_LEN;
use crate::errors::ProtectionError;
use crate::rng::os_random_bytes;

verus! {

/// Greatest plaintext length AES-GCM accepts: 2^36 bytes.
pub const GCM_PLAINTEXT_MAX: u64 = 0x10_0000_0000;

/// Length of the authentication tag appended to the ciphertext.
pub const GCM_TAG_LEN: usize = 16;

/// The AES-256-GCM sealing of a plaintext under a key and a nonce: the
/// ciphertext with its authentication tag appended. A pure function of the
/// key, the nonce and the plaintext.
pub uninterp spec fn sealed_of(key: Seq<u8>, nonce: Seq<u8>, plaintext: Seq<u8>) -> Seq<u8>;

/// Relies on aes_gcm's `Aes256Gcm` encryption: it returns the ciphertext
/// with the tag appended, 16 bytes longer than the plaintext, deterministic
/// in (key, nonce, plaintext), and succeeds whenever the plaintext is within
/// the AES-GCM length bound.
#[verifier::external_body]
fn gcm_seal(key: &[u8; 32], nonce: &[u8], plaintext: &[u8]) -> (ciphertext: Vec<u8>)
    requires
        nonce@.len() == NONCE_LEN,
        plaintext@.len() <= GCM_PLAINTEXT_MAX,
    ensures
        ciphertext@ == sealed_of(key@, nonce@, plaintext@),
        ciphertext@.len() == plaintext@.len() + GCM_TAG_LEN,
{
    let cipher = Aes256Gcm::new(Key::<Aes256Gcm>::from_slice(key));
    cipher
        .encrypt(Nonce::from_slice(nonce), plaintext)
        .expect("the plaintext is within the AES-GCM length bound")
}

/// Relies on aes_gcm's `Aes256Gcm` decryption: fail-closed, it succeeds
/// exactly on the byte strings that sealing under the same key and nonce
/// produces, returns the unique plaintext sealing to the ciphertext, and
/// reports everything else as one undifferentiated failure. The ciphertext
/// must be no longer than any sealing of an admissible plaintext: the
/// cipher's own length check is against the ciphertext body alone, so a
/// slightly longer input could decrypt to a plaintext beyond the sealing
/// bound, which this contract must not admit.
#[verifier::external_body]
fn gcm_open(key: &[u8; 32], nonce: &[u8], ciphertext: &[u8]) -> (r: Result<
    Vec<u8>,
    ProtectionError,
>)
    requires
        nonce@.len() == NONCE_LEN,
        ciphertext@.len() <= GCM_PLAINTEXT_MAX + GCM_TAG_LEN,
    ensures
        r matches Ok(plaintext) ==> {
            &&& ciphertext@ == sealed_of(key@, nonce@, plaintext@)
            &&& plaintext@.len() + GCM_TAG_LEN == ciphertext@.len()
            &&& plaintext@.len() <= GCM_PLAINTEXT_MAX
            &&& forall|p: Seq<u8>|
                p.len() <= GCM_PLAINTEXT_MAX && #[trigger] sealed_of(key@, nonce@, p)
                    == ciphertext@ ==> p == plaintext@
        },
        r matches Err(e) ==> {
            &&& e == ProtectionError::AuthenticationFailure
            &&& forall|p: Seq<u8>|
                p.len() <= GCM_PLAINTEXT_MAX ==> ciphertext@ != #[trigger] sealed_of(
                    key@,
                    nonce@,
                    p,
                )
        },
{
    let cipher = Aes256Gcm::new(Key::<Aes256Gcm>::from_slice(key));
    cipher
        .decrypt(Nonce::from_slice(nonce), ciphertext)
        .map_err(|_| ProtectionError::AuthenticationFailure)
}

/// Encrypt a plaintext under a fresh random nonce.
///
/// On success the result holds the ciphertext (16 bytes longer than the
/// plaintext, the tag included) and the 12-byte nonce it was sealed under;
/// the only failure is the entropy source refusing to produce the nonce.
pub fn aes_gcm_encrypt(plaintext: &[u8], key: &[u8; 32]) -> (r: Result<
    (Vec<u8>, Vec<u8>),
    ProtectionError,
>)
    requires
        plaintext@.len() <= GCM_PLAINTEXT_MAX,
    ensures
        r matches Ok(pair) ==> {
            &&& pair.1@.len() == NONCE_LEN
            &&& pair.0@ == sealed_of(key@, pair.1@, plaintext@)
            &&& pair.0@.len() == plaintext@.len() + GCM_TAG_LEN
        },
        r matches Err(e) ==> e == ProtectionError::EntropySourceFailure,
{
    let nonce = match os_random_bytes(NONCE_LEN) {
        Ok(v) => v,
        Err(e) => {
            return Err(e);
        },
    };
    let ciphertext = gcm_seal(key, nonce.as_slice(), plaintext);
    Ok((ciphertext, nonce))
}

/// Decrypt and authenticate a ciphertext under a key and a 12-byte nonce.
///
/// Succeeds exactly when the ciphertext is the sealing of some plaintext
/// under this key and nonce, and then returns that plaintext; otherwise it
/// fails with `AuthenticationFailure` and nothing is recovered. A
/// ciphertext longer than any sealing — beyond the plaintext bound plus the
/// tag — cannot be authentic and is rejected without consulting the cipher.
pub fn aes_gcm_decrypt(ciphertext: &[u8], key: &[u8; 32], nonce: &[u8]) -> (r: Result<
    Vec<u8>,
    ProtectionError,
>)
    requires
        nonce@.len() == NONCE_LEN,
    ensures
        r matches Ok(plaintext) ==> {
            &&& ciphertext@ == sealed_of(key@, nonce@, plaintext@)
            &&& plaintext@.len() + GCM_TAG_LEN == ciphertext@.len()
            &&& plaintext@.len() <= GCM_PLAINTEXT_MAX
            &&& forall|p: Seq<u8>|
                p.len() <= GCM_PLAINTEXT_MAX && #[trigger] sealed_of(key@, nonce@, p)
                    == ciphertext@ ==> p == plaintext@
        },
        r matches Err(e) ==> {
            &&& e == ProtectionError::AuthenticationFailure
            &&& forall|p: Seq<u8>|
                p.len() <= GCM_PLAINTEXT_MAX && p.len() + GCM_TAG_LEN == ciphertext@.len()
                    ==> ciphertext@ != #[trigger] sealed_of(key@, nonce@, p)
        },
{
    if ciphertext.len() as u64 > GCM_PLAINTEXT_MAX + GCM_TAG_LEN as u64 {
        return Err(ProtectionError::AuthenticationFailure);
    }
    gcm_open(key, nonce, ciphertext)
}

} // verus!
