//! Equality of fixed-size 32-byte public keys.
//!
//! A key is an opaque value of exactly 32 bytes; the only operation offered
//! here is deciding whether two keys are bit-identical. Two implementations
//! are provided and proved equivalent: a word-wise comparison that views each
//! key as four 8-byte little-endian words and exits on the first mismatch
//! (the shape of a hand-optimized comparison routine), and a portable
//! byte-wise fallback. [`fast_eq`] is the entry point callers use.

use vstd::prelude::*;

pub mod laws;
pub mod words;

verus! {

/// Two byte views name the same key exactly when they are equal as sequences.
pub open spec fn keys_equal(a: Seq<u8>, b: Seq<u8>) -> bool {
    a == b
}

/// Compare two 32-byte keys byte for byte: the portable fallback path,
/// a direct structural equality check.
pub fn bytes_eq(lhs: &[u8; 32], rhs: &[u8; 32]) -> (r: bool)
    ensures
        r == keys_equal(lhs@, rhs@),
{
    let mut i: usize = 0;
    while i < 32
        invariant
            i <= 32,
            forall|j: int| 0 <= j < i ==> lhs@[j] == rhs@[j],
        decreases 32 - i,
    {
        if lhs[i] != rhs[i] {
            return false;
        }
        i = i + 1;
    }
    proof {
        assert(lhs@ =~= rhs@);
    }
    true
}

/// Decide whether two 32-byte keys are bit-identical.
///
/// This is the one entry point callers use. It takes the word-wise path,
/// whose contract is the same as the fallback's: the result is `true`
/// exactly when the two byte views are equal. The comparison borrows both
/// operands for the duration of the call and mutates nothing.
pub fn fast_eq(lhs: &[u8; 32], rhs: &[u8; 32]) -> (r: bool)
    ensures
        r == keys_equal(lhs@, rhs@),
{
    words::words_eq(lhs, rhs)
}

} // verus!
