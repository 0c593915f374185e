//! Operating-system randomness.

use rand::RngCore;
use vstd::prelude::*;

use crate::errors::ProtectionError;

verus! {

/// Relies on rand's `OsRng::try_fill_bytes`: on success the whole buffer has
/// been filled by the operating system's cryptographic random generator.
/// Nothing is promised of the bytes themselves — they are random, and two
/// calls may return anything. A failure of the entropy source is surfaced,
/// never retried.
#[verifier::external_body]
pub(crate) fn os_random_bytes(n: usize) -> (r: Result<Vec<u8>, ProtectionError>)
    ensures
        r matches Ok(v) ==> v@.len() == n,
        r matches Err(e) ==> e == ProtectionError::EntropySourceFailure,
{
    let mut buf = vec![0u8; n];
    let mut rng = rand::rngs::OsRng;
    match rng.try_fill_bytes(&mut buf) {
        Ok(()) => Ok(buf),
        Err(_) => Err(ProtectionError::EntropySourceFailure),
    }
}

} // verus!
