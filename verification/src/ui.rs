//! The decisions behind the interactive flows: which operation a menu index
//! selects, what counts as a usable e-mail address, and how a name becomes
//! a file stem. The prompting itself lives outside the library.

use vstd::prelude::*;
use vstd::string::StringSliceAdditionalSpecFns;

verus! {

/// The operations the main menu offers.
#[derive(Clone, Copy, Debug, PartialEq, Eq, Structural)]
pub enum Operation {
    /// Generate a new key pair.
    Generate,
    /// Decrypt and export a protected private key.
    Decrypt,
    /// Leave the program.
    Exit,
}

impl Operation {
    /// The operation a menu selection index stands for; anything past the
    /// three menu entries means leaving.
    pub fn from_index(index: usize) -> (op: Operation)
        ensures
            index == 0 ==> op == Operation::Generate,
            index == 1 ==> op == Operation::Decrypt,
            index >= 2 ==> op == Operation::Exit,
    {
        match index {
            0 => Operation::Generate,
            1 => Operation::Decrypt,
            _ => Operation::Exit,
        }
    }
}

/// Whether a byte occurs in a slice.
fn contains_byte(bytes: &[u8], wanted: u8) -> (r: bool)
    ensures
        r == bytes@.contains(wanted),
{
    let mut i: usize = 0;
    while i < bytes.len()
        invariant
            i <= bytes@.len(),
            forall|j: int| 0 <= j < i ==> bytes@[j] != wanted,
        decreases bytes@.len() - i,
    {
        if bytes[i] == wanted {
            assert(bytes@[i as int] == wanted);
            return true;
        }
        i = i + 1;
    }
    false
}

/// Whether an address is usable as the mail part of a key's user identity:
/// it holds at least one `@` and at least one dot.
pub fn is_valid_email(address: &str) -> (r: bool)
    ensures
        r == (address.spec_bytes().contains(64u8) && address.spec_bytes().contains(46u8)),
{
    let bytes = address.as_bytes();
    contains_byte(bytes, 64) && contains_byte(bytes, 46)
}

/// Turn a display name into a file stem: every space becomes an
/// underscore, and nothing else changes.
pub fn sanitize_file_stem(name: &[u8]) -> (r: Vec<u8>)
    ensures
        r@ == name@.map(|i: int, b: u8| (if b == 32u8 {
            95u8
        } else {
            b
        })),
{
    let mut out: Vec<u8> = Vec::new();
    let mut i: usize = 0;
    while i < name.len()
        invariant
            i <= name@.len(),
            out@ == name@.subrange(0, i as int).map(|j: int, b: u8| (if b == 32u8 {
                95u8
            } else {
                b
            })),
        decreases name@.len() - i,
    {
        let b = name[i];
        if b == 32 {
            out.push(95);
        } else {
            out.push(b);
        }
        proof {
            assert(name@.subrange(0, i + 1 as int).map(|j: int, b: u8| (if b == 32u8 {
                95u8
            } else {
                b
            })) =~= name@.subrange(0, i as int).map(|j: int, b: u8| (if b == 32u8 {
                95u8
            } else {
                b
            })).push((if name@[i as int] == 32u8 {
                95u8
            } else {
                name@[i as int]
            })));
        }
        i = i + 1;
    }
    proof {
        assert(name@.subrange(0, name@.len() as int) =~= name@);
    }
    out
}

} // verus!
