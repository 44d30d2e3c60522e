//! What bytes in memory mean as numbers.

use vstd::prelude::*;

use crate::bytes::{half_at, half_of, word_at, word_of};

verus! {

/// A halfword of two bytes and a word of four.
proof fn lemma_joined(a: u8, b: u8, c: u8, d: u8)
    by (bit_vector)
    ensures
        (a as u16) | ((b as u16) << 8) == (a as u16) + (b as u16) * 256,
        (a as u32) | ((b as u32) << 8) | ((c as u32) << 16) | ((d as u32) << 24) == (a as u32) + (
        b as u32) * 256 + (c as u32) * 0x1_0000 + (d as u32) * 0x100_0000,
{
}

/// The number that two bytes make.
pub(crate) proof fn lemma_half_number(lo: u8, hi: u8)
    ensures
        half_of(lo, hi) == lo + 256 * hi,
{
    lemma_joined(lo, hi, 0, 0);
}

/// The byte at the lower address is the less significant one.
pub proof fn law_little_endian(m: Seq<u8>, i: int)
    requires
        0 <= i,
        i + 4 <= m.len(),
    ensures
        half_at(m, i) == m[i] + 256 * m[i + 1],
        word_at(m, i) == m[i] + 256 * m[i + 1] + 0x1_0000 * m[i + 2] + 0x100_0000 * m[i + 3],
{
    lemma_joined(m[i], m[i + 1], m[i + 2], m[i + 3]);
    assert(word_at(m, i) == word_of(m[i], m[i + 1], m[i + 2], m[i + 3]));
}

} // verus!
