//! The protection service: `protect` seals a secret under a password,
//! `unprotect` recovers it.
//!
//! Each call is a pure function of its explicit inputs plus fresh
//! randomness; no state survives a call, and the derived key is wiped on
//! every exit path.

use vstd::prelude::*;

use crate::aead::{aes_gcm_decrypt, aes_gcm_encrypt, sealed_of, GCM_PLAINTEXT_MAX, GCM_TAG_LEN};
use crate::codec::{decode, encode, lemma_frame_split, HEADER_LEN, NONCE_LEN, SALT_LEN};
use crate::errors::ProtectionError;
use crate::kdf::{derive_encryption_key, derived_key_of, wipe_key};
use crate::rng::os_random_bytes;

verus! {

/// The container that framing a secret under a password with a given salt
/// and nonce produces: `salt || nonce || sealed_of(key, nonce, secret)`,
/// where the key is derived from the password and the salt.
pub open spec fn container_of(
    secret: Seq<u8>,
    password: Seq<char>,
    salt: Seq<u8>,
    nonce: Seq<u8>,
) -> Seq<u8> {
    salt + nonce + sealed_of(derived_key_of(password, salt), nonce, secret)
}

/// Whether a container opens under a password to a given secret: it is long
/// enough to carry a salt and a nonce, its length is the secret's plus the
/// 28-byte header and the 16-byte tag, and its ciphertext region is exactly
/// the sealing of the secret under the key derived from the password and
/// the container's own salt.
pub open spec fn opens_to(container: Seq<u8>, password: Seq<char>, secret: Seq<u8>) -> bool {
    &&& container.len() >= HEADER_LEN
    &&& secret.len() <= GCM_PLAINTEXT_MAX
    &&& secret.len() + HEADER_LEN + GCM_TAG_LEN == container.len()
    &&& container.subrange(HEADER_LEN as int, container.len() as int) == sealed_of(
        derived_key_of(password, container.subrange(0, SALT_LEN as int)),
        container.subrange(SALT_LEN as int, HEADER_LEN as int),
        secret,
    )
}

/// Seal a secret under a password into one opaque container blob.
///
/// A fresh 16-byte salt and a fresh 12-byte nonce are drawn from the
/// operating system's random generator, so two calls on identical inputs
/// produce different blobs; both open back to the secret under the same
/// password. The derived key is wiped before the call returns, on the error
/// path too. The only failure is the entropy source refusing to produce
/// bytes.
pub fn protect(secret: &[u8], password: &str) -> (r: Result<Vec<u8>, ProtectionError>)
    requires
        secret@.len() <= GCM_PLAINTEXT_MAX,
        secret@.len() + HEADER_LEN + GCM_TAG_LEN <= usize::MAX,
    ensures
        r matches Ok(container) ==> {
            &&& container@.len() == secret@.len() + HEADER_LEN + GCM_TAG_LEN
            &&& opens_to(container@, password@, secret@)
            &&& exists|salt: Seq<u8>, nonce: Seq<u8>|
                {
                    &&& salt.len() == SALT_LEN
                    &&& nonce.len() == NONCE_LEN
                    &&& container@ == #[trigger] container_of(secret@, password@, salt, nonce)
                }
        },
        r matches Err(e) ==> e == ProtectionError::EntropySourceFailure,
{
    let salt = match os_random_bytes(SALT_LEN) {
        Ok(v) => v,
        Err(e) => {
            return Err(e);
        },
    };
    let mut key = match derive_encryption_key(password, salt.as_slice()) {
        Ok(k) => k,
        Err(e) => {
            return Err(e);
        },
    };
    let sealed = aes_gcm_encrypt(secret, &key);
    wipe_key(&mut key);
    let (ciphertext, nonce) = match sealed {
        Ok(pair) => pair,
        Err(e) => {
            return Err(e);
        },
    };
    let container = encode(salt.as_slice(), nonce.as_slice(), ciphertext.as_slice());
    proof {
        assert(container@ == container_of(secret@, password@, salt@, nonce@));
        lemma_round_trip(secret@, password@, salt@, nonce@);
    }
    Ok(container)
}

/// Recover the secret a container holds, given the password it was
/// protected under.
///
/// Fails with `FormatError` exactly when the blob is shorter than the
/// 28-byte header, before any cryptography is attempted; fails with
/// `AuthenticationFailure` exactly when no secret seals to the blob's
/// ciphertext under the derived key — a wrong password, corrupted storage
/// and tampering are indistinguishable. On success the returned bytes are
/// the one secret the container opens to, byte for byte. The derived key is
/// wiped before the call returns.
pub fn unprotect(container: &[u8], password: &str) -> (r: Result<Vec<u8>, ProtectionError>)
    ensures
        (r matches Err(e) && e == ProtectionError::FormatError) <==> container@.len() < HEADER_LEN,
        r matches Ok(secret) ==> {
            &&& secret@.len() + HEADER_LEN + GCM_TAG_LEN == container@.len()
            &&& opens_to(container@, password@, secret@)
            &&& forall|other: Seq<u8>| opens_to(container@, password@, other) ==> other == secret@
        },
        (r matches Err(e) && e == ProtectionError::AuthenticationFailure) <==> (container@.len()
            >= HEADER_LEN && !(exists|secret: Seq<u8>|
            opens_to(container@, password@, secret))),
        r matches Err(e) ==> e == ProtectionError::FormatError || e
            == ProtectionError::AuthenticationFailure,
{
    let parts = match decode(container) {
        Ok(p) => p,
        Err(e) => {
            return Err(e);
        },
    };
    let (salt, nonce, ciphertext) = parts;
    let mut key = match derive_encryption_key(password, salt.as_slice()) {
        Ok(k) => k,
        Err(e) => {
            return Err(e);
        },
    };
    let opened = aes_gcm_decrypt(ciphertext.as_slice(), &key, nonce.as_slice());
    wipe_key(&mut key);
    match opened {
        Ok(secret) => {
            proof {
                assert(opens_to(container@, password@, secret@));
                assert forall|other: Seq<u8>|
                    opens_to(container@, password@, other) implies other == secret@ by {
                    assert(sealed_of(
                        derived_key_of(password@, container@.subrange(0, SALT_LEN as int)),
                        container@.subrange(SALT_LEN as int, HEADER_LEN as int),
                        other,
                    ) == ciphertext@);
                }
            }
            Ok(secret)
        },
        Err(_) => {
            proof {
                assert forall|secret: Seq<u8>|
                    !opens_to(container@, password@, secret) by {
                    if secret.len() <= GCM_PLAINTEXT_MAX && secret.len() + HEADER_LEN
                        + GCM_TAG_LEN == container@.len() {
                        assert(ciphertext@ != sealed_of(
                            derived_key_of(password@, container@.subrange(0, SALT_LEN as int)),
                            container@.subrange(SALT_LEN as int, HEADER_LEN as int),
                            secret,
                        ));
                    }
                }
            }
            Err(ProtectionError::AuthenticationFailure)
        },
    }
}

/// Round trip: a container framed from a secret under a password, with any
/// 16-byte salt and any 12-byte nonce, opens under that password to exactly
/// that secret. The last hypothesis — the sealing is 16 bytes longer than
/// the secret — is what `aes_gcm_encrypt` ensures of every sealing it
/// produces, so every caller that framed a real container has it.
pub proof fn lemma_round_trip(secret: Seq<u8>, password: Seq<char>, salt: Seq<u8>, nonce: Seq<u8>)
    requires
        salt.len() == SALT_LEN,
        nonce.len() == NONCE_LEN,
        secret.len() <= GCM_PLAINTEXT_MAX,
        sealed_of(derived_key_of(password, salt), nonce, secret).len() == secret.len()
            + GCM_TAG_LEN,
    ensures
        opens_to(container_of(secret, password, salt, nonce), password, secret),
{
    lemma_frame_split(salt, nonce, sealed_of(derived_key_of(password, salt), nonce, secret));
}

} // verus!
