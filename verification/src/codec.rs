//! Binary framing of a protected container.
//!
//! A container is the concatenation `salt(16) || nonce(12) || ciphertext`,
//! with no length prefixes: the salt and the nonce have fixed sizes and the
//! ciphertext is everything that remains.

use vstd::prelude::*;
use vstd::slice::{slice_subrange, slice_to_vec};

use crate::errors::ProtectionError;

verus! {

/// Number of salt bytes at the front of a container.
pub const SALT_LEN: usize = 16;

/// Number of nonce bytes following the salt.
pub const NONCE_LEN: usize = 12;

/// Least length of a well-formed container: a full salt and a full nonce.
pub const HEADER_LEN: usize = 28;

/// Frame a salt, a nonce and a ciphertext into one container blob.
pub fn encode(salt: &[u8], nonce: &[u8], ciphertext: &[u8]) -> (blob: Vec<u8>)
    requires
        salt@.len() == SALT_LEN,
        nonce@.len() == NONCE_LEN,
        ciphertext@.len() + HEADER_LEN <= usize::MAX,
    ensures
        blob@ == salt@ + nonce@ + ciphertext@,
        blob@.len() == ciphertext@.len() + HEADER_LEN,
{
    let mut blob = slice_to_vec(salt);
    let mut rest = slice_to_vec(nonce);
    blob.append(&mut rest);
    let mut tail = slice_to_vec(ciphertext);
    blob.append(&mut tail);
    blob
}

/// Split a container blob back into its salt, nonce and ciphertext.
///
/// Fails with `FormatError` exactly when the blob is too short to hold a
/// full salt and nonce; no cryptographic validation happens here.
pub fn decode(blob: &[u8]) -> (r: Result<(Vec<u8>, Vec<u8>, Vec<u8>), ProtectionError>)
    ensures
        r matches Err(e) ==> e == ProtectionError::FormatError,
        blob@.len() < HEADER_LEN <==> r is Err,
        r matches Ok(parts) ==> {
            &&& parts.0@ == blob@.subrange(0, SALT_LEN as int)
            &&& parts.1@ == blob@.subrange(SALT_LEN as int, HEADER_LEN as int)
            &&& parts.2@ == blob@.subrange(HEADER_LEN as int, blob@.len() as int)
        },
{
    if blob.len() < HEADER_LEN {
        return Err(ProtectionError::FormatError);
    }
    let salt = slice_to_vec(slice_subrange(blob, 0, SALT_LEN));
    let nonce = slice_to_vec(slice_subrange(blob, SALT_LEN, HEADER_LEN));
    let ciphertext = slice_to_vec(slice_subrange(blob, HEADER_LEN, blob.len()));
    Ok((salt, nonce, ciphertext))
}

/// Splitting a framed container recovers exactly the three framed parts.
pub proof fn lemma_frame_split(salt: Seq<u8>, nonce: Seq<u8>, ciphertext: Seq<u8>)
    requires
        salt.len() == SALT_LEN,
        nonce.len() == NONCE_LEN,
    ensures
        (salt + nonce + ciphertext).subrange(0, SALT_LEN as int) == salt,
        (salt + nonce + ciphertext).subrange(SALT_LEN as int, HEADER_LEN as int) == nonce,
        (salt + nonce + ciphertext).subrange(
            HEADER_LEN as int,
            (salt + nonce + ciphertext).len() as int,
        ) == ciphertext,
{
    let blob = salt + nonce + ciphertext;
    assert(blob.subrange(0, SALT_LEN as int) =~= salt);
    assert(blob.subrange(SALT_LEN as int, HEADER_LEN as int) =~= nonce);
    assert(blob.subrange(HEADER_LEN as int, blob.len() as int) =~= ciphertext);
}

} // verus!
