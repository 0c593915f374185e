use vstd::prelude::*;

verus! {

/// The failure kinds that the container operations surface.
///
/// `FormatError` and `AuthenticationFailure` are recoverable outcomes of
/// `unprotect`; `EntropySourceFailure` means the operating system could not
/// produce random bytes, and `KeyDerivationFailure` is reserved for a failure
/// of the key-derivation primitive itself.
#[derive(Clone, Copy, Debug, PartialEq, Eq, Structural)]
pub enum ProtectionError {
    /// The container blob is too short to hold a salt and a nonce.
    FormatError,
    /// The authentication tag did not verify: wrong password, corrupted
    /// storage or tampering, indistinguishable by design.
    AuthenticationFailure,
    /// The operating-system random generator failed to produce bytes.
    EntropySourceFailure,
    /// The key-derivation primitive failed.
    KeyDerivationFailure,
}

} // verus!
