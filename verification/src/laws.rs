//! Laws of the key-equality relation.
//!
//! Each proof function here states one property of comparing 32-byte keys,
//! over the same spec functions that the executable comparisons promise in
//! their contracts: [`keys_equal`] for the byte view and
//! [`words_match`](crate::words::words_match) for the word view.

use vstd::prelude::*;

use crate::keys_equal;
use crate::words::lemma_words_match_iff_keys_equal;
use crate::words::word_at;
use crate::words::words_match;

verus! {

/// Reflexivity: every key equals itself, on the byte view and on the word
/// view alike, so comparing a key against itself or against an equal copy
/// reports equality.
pub proof fn lemma_reflexive(a: Seq<u8>)
    requires
        a.len() == 32,
    ensures
        keys_equal(a, a),
        words_match(a, a),
{
}

/// Sensitivity: keys that differ in at least one byte, wherever that byte
/// sits, are reported unequal by both views.
pub proof fn lemma_differing_byte_distinguishes(a: Seq<u8>, b: Seq<u8>, i: int)
    requires
        a.len() == 32,
        b.len() == 32,
        0 <= i < 32,
        a[i] != b[i],
    ensures
        !keys_equal(a, b),
        !words_match(a, b),
{
    lemma_words_match_iff_keys_equal(a, b);
}

/// Early exit is sound: a mismatch already in the first word settles the
/// comparison as unequal, whatever the remaining words hold.
pub proof fn lemma_first_word_decides(a: Seq<u8>, b: Seq<u8>)
    requires
        a.len() == 32,
        b.len() == 32,
        word_at(a, 0) != word_at(b, 0),
    ensures
        !keys_equal(a, b),
        !words_match(a, b),
{
}

/// The final link of the chain matters: keys whose first three words agree
/// but whose fourth words differ are unequal.
pub proof fn lemma_last_word_decides(a: Seq<u8>, b: Seq<u8>)
    requires
        a.len() == 32,
        b.len() == 32,
        word_at(a, 0) == word_at(b, 0),
        word_at(a, 1) == word_at(b, 1),
        word_at(a, 2) == word_at(b, 2),
        word_at(a, 3) != word_at(b, 3),
    ensures
        !keys_equal(a, b),
        !words_match(a, b),
{
}

} // verus!
