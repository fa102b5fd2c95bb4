//! The word view of a 32-byte key: four 8-byte little-endian words.
//!
//! An optimized comparison routine reads a key as four machine words rather
//! than 32 single bytes. This module gives that view a specification
//! ([`word_at`], [`words_match`]), an auditable loader from bytes to words
//! ([`load_word`]), and the proof that comparing word views decides exactly
//! the same relation as comparing the bytes themselves.

use vstd::prelude::*;

use crate::keys_equal;

verus! {

/// Word `w` (0 through 3) of a 32-byte key, read little-endian.
pub open spec fn word_at(k: Seq<u8>, w: int) -> u64
    recommends
        k.len() == 32,
        0 <= w < 4,
{
    (k[8 * w] as u64) | ((k[8 * w + 1] as u64) << 8) | ((k[8 * w + 2] as u64) << 16) | ((k[8 * w
        + 3] as u64) << 24) | ((k[8 * w + 4] as u64) << 32) | ((k[8 * w + 5] as u64) << 40) | ((k[8
        * w + 6] as u64) << 48) | ((k[8 * w + 7] as u64) << 56)
}

/// All four words of `a` agree with the corresponding words of `b`.
pub open spec fn words_match(a: Seq<u8>, b: Seq<u8>) -> bool {
    forall|w: int| 0 <= w < 4 ==> word_at(a, w) == word_at(b, w)
}

/// Read word `w` of `k`: the explicit conversion from eight bytes to one
/// machine word that an optimized routine performs with a single load.
pub fn load_word(k: &[u8; 32], w: usize) -> (r: u64)
    requires
        w < 4,
    ensures
        r == word_at(k@, w as int),
{
    let base: usize = 8 * w;
    (k[base] as u64) | ((k[base + 1] as u64) << 8) | ((k[base + 2] as u64) << 16) | ((k[base
        + 3] as u64) << 24) | ((k[base + 4] as u64) << 32) | ((k[base + 5] as u64) << 40) | ((k[base
        + 6] as u64) << 48) | ((k[base + 7] as u64) << 56)
}

/// If word `w` of `a` equals word `w` of `b`, the eight bytes behind that
/// word are equal pairwise: packing bytes into a little-endian word loses
/// nothing.
pub proof fn lemma_word_determines_bytes(a: Seq<u8>, b: Seq<u8>, w: int)
    requires
        a.len() == 32,
        b.len() == 32,
        0 <= w < 4,
        word_at(a, w) == word_at(b, w),
    ensures
        forall|j: int| 8 * w <= j < 8 * w + 8 ==> a[j] == b[j],
{
    let a0 = a[8 * w] as u64;
    let a1 = a[8 * w + 1] as u64;
    let a2 = a[8 * w + 2] as u64;
    let a3 = a[8 * w + 3] as u64;
    let a4 = a[8 * w + 4] as u64;
    let a5 = a[8 * w + 5] as u64;
    let a6 = a[8 * w + 6] as u64;
    let a7 = a[8 * w + 7] as u64;
    let b0 = b[8 * w] as u64;
    let b1 = b[8 * w + 1] as u64;
    let b2 = b[8 * w + 2] as u64;
    let b3 = b[8 * w + 3] as u64;
    let b4 = b[8 * w + 4] as u64;
    let b5 = b[8 * w + 5] as u64;
    let b6 = b[8 * w + 6] as u64;
    let b7 = b[8 * w + 7] as u64;
    assert(((a0 | a1 << 8 | a2 << 16 | a3 << 24 | a4 << 32 | a5 << 40 | a6 << 48 | a7 << 56) == (b0
        | b1 << 8 | b2 << 16 | b3 << 24 | b4 << 32 | b5 << 40 | b6 << 48 | b7 << 56) && a0 < 256
        && a1 < 256 && a2 < 256 && a3 < 256 && a4 < 256 && a5 < 256 && a6 < 256 && a7 < 256 && b0
        < 256 && b1 < 256 && b2 < 256 && b3 < 256 && b4 < 256 && b5 < 256 && b6 < 256 && b7 < 256)
        ==> (a0 == b0 && a1 == b1 && a2 == b2 && a3 == b3 && a4 == b4 && a5 == b5 && a6 == b6 && a7
        == b7)) by (bit_vector);
    assert forall|j: int| 8 * w <= j < 8 * w + 8 implies a[j] == b[j] by {
        assert(j == 8 * w || j == 8 * w + 1 || j == 8 * w + 2 || j == 8 * w + 3 || j == 8 * w + 4
            || j == 8 * w + 5 || j == 8 * w + 6 || j == 8 * w + 7);
    }
}

/// The word view is faithful: two 32-byte keys have matching word views
/// exactly when they are equal byte for byte. This is the fact that lets a
/// word-wise comparison routine decide plain byte equality.
pub proof fn lemma_words_match_iff_keys_equal(a: Seq<u8>, b: Seq<u8>)
    requires
        a.len() == 32,
        b.len() == 32,
    ensures
        words_match(a, b) <==> keys_equal(a, b),
{
    if words_match(a, b) {
        assert forall|i: int| 0 <= i < 32 implies a[i] == b[i] by {
            if i < 8 {
                lemma_word_determines_bytes(a, b, 0);
            } else if i < 16 {
                lemma_word_determines_bytes(a, b, 1);
            } else if i < 24 {
                lemma_word_determines_bytes(a, b, 2);
            } else {
                lemma_word_determines_bytes(a, b, 3);
            }
        }
        assert(a =~= b);
    }
}

/// Compare two keys through their word views: walk the four words in
/// address order and stop at the first mismatch. This is the portable,
/// verified form of an optimized word-wise comparison routine.
pub fn words_eq(lhs: &[u8; 32], rhs: &[u8; 32]) -> (r: bool)
    ensures
        r == keys_equal(lhs@, rhs@),
{
    let mut w: usize = 0;
    while w < 4
        invariant
            w <= 4,
            forall|j: int| 0 <= j < w ==> word_at(lhs@, j) == word_at(rhs@, j),
        decreases 4 - w,
    {
        if load_word(lhs, w) != load_word(rhs, w) {
            return false;
        }
        w = w + 1;
    }
    proof {
        lemma_words_match_iff_keys_equal(lhs@, rhs@);
    }
    true
}

} // verus!
