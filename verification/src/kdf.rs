//! Key derivation: a password and a salt become a 32-byte symmetric key.

use vstd::prelude::*;
use zeroize::Zeroize;

use crate::errors::ProtectionError;

verus! {

/// PBKDF2 iteration count. The count is not recorded in the container, so
/// changing it breaks the decryption of previously produced containers.
pub const PBKDF2_ITERATIONS: u32 = 100000;

/// The 32-byte key that PBKDF2 with HMAC-SHA-256 at `PBKDF2_ITERATIONS`
/// iterations derives from a password and a salt: a pure function of the two
/// arguments, so the same password and salt always name the same key.
pub uninterp spec fn derived_key_of(password: Seq<char>, salt: Seq<u8>) -> Seq<u8>;

/// Relies on pbkdf2's `pbkdf2` with `Hmac<Sha256>` as the PRF: it fills the
/// buffer with the PBKDF2 stretch of the password's UTF-8 bytes and the
/// salt, a deterministic function of the arguments alone. With HMAC, which
/// accepts keys of any length, and a 32-byte output the call cannot fail.
#[verifier::external_body]
fn pbkdf2_hmac_sha256(password: &str, salt: &[u8]) -> (key: [u8; 32])
    ensures
        key@ == derived_key_of(password@, salt@),
{
    let mut key = [0u8; 32];
    pbkdf2::pbkdf2::<hmac::Hmac<sha2::Sha256>>(
        password.as_bytes(),
        salt,
        PBKDF2_ITERATIONS,
        &mut key,
    )
        .expect("HMAC accepts keys of any length");
    key
}

/// Derive the 32-byte encryption key for a password and a salt.
///
/// Deterministic: identical inputs always yield an identical key, which is
/// what lets `unprotect` reconstruct the key `protect` used without storing
/// it. The key-derivation primitive itself cannot fail here, so the result
/// is always `Ok`.
pub fn derive_encryption_key(password: &str, salt: &[u8]) -> (r: Result<
    [u8; 32],
    ProtectionError,
>)
    ensures
        r matches Ok(key) && key@ == derived_key_of(password@, salt@),
{
    Ok(pbkdf2_hmac_sha256(password, salt))
}

/// Relies on zeroize's `Zeroize` for byte arrays: every byte of the key is
/// overwritten with zero, through a write the compiler will not elide.
#[verifier::external_body]
pub(crate) fn wipe_key(key: &mut [u8; 32])
    ensures
        forall|i: int| 0 <= i < 32 ==> final(key)@[i] == 0u8,
{
    key.zeroize();
}

/// Determinism of derivation: two keys derived from the same password and
/// the same salt are the same key.
pub proof fn lemma_derivation_deterministic(
    k1: Seq<u8>,
    k2: Seq<u8>,
    password: Seq<char>,
    salt: Seq<u8>,
)
    requires
        k1 == derived_key_of(password, salt),
        k2 == derived_key_of(password, salt),
    ensures
        k1 == k2,
{
}

} // verus!
