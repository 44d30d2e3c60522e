//! Little-endian halfwords and words in byte memories.

use vstd::prelude::*;

verus! {

/// The halfword with low byte `lo` and high byte `hi`.
pub open spec fn half_of(lo: u8, hi: u8) -> u16 {
    (lo as u16) | ((hi as u16) << 8)
}

/// The word with the given bytes, lowest first.
pub open spec fn word_of(b0: u8, b1: u8, b2: u8, b3: u8) -> u32 {
    (b0 as u32) | ((b1 as u32) << 8) | ((b2 as u32) << 16) | ((b3 as u32) << 24)
}

/// The halfword at `index` of `m`.
pub open spec fn half_at(m: Seq<u8>, index: int) -> u16 {
    half_of(m[index], m[index + 1])
}

/// The word at `index` of `m`.
pub open spec fn word_at(m: Seq<u8>, index: int) -> u32 {
    word_of(m[index], m[index + 1], m[index + 2], m[index + 3])
}

/// `m` with the halfword at `index` replaced.
pub open spec fn with_half(m: Seq<u8>, index: int, value: u16) -> Seq<u8> {
    m.update(index, value as u8).update(index + 1, (value >> 8) as u8)
}

/// `m` with the word at `index` replaced.
pub open spec fn with_word(m: Seq<u8>, index: int, value: u32) -> Seq<u8> {
    m.update(index, value as u8).update(index + 1, (value >> 8) as u8).update(
        index + 2,
        (value >> 16) as u8,
    ).update(index + 3, (value >> 24) as u8)
}

/// Joins two bytes.
#[inline]
pub fn le16(lo: u8, hi: u8) -> (value: u16)
    ensures
        value == half_of(lo, hi),
{
    (lo as u16) | ((hi as u16) << 8)
}

/// Joins four bytes.
#[inline]
pub fn le32(b0: u8, b1: u8, b2: u8, b3: u8) -> (value: u32)
    ensures
        value == word_of(b0, b1, b2, b3),
{
    (b0 as u32) | ((b1 as u32) << 8) | ((b2 as u32) << 16) | ((b3 as u32) << 24)
}

/// Reads the halfword at `index`.
#[inline]
pub fn get16(mem: &[u8], index: usize) -> (value: u16)
    requires
        index + 2 <= mem@.len(),
    ensures
        value == half_at(mem@, index as int),
{
    le16(mem[index], mem[index + 1])
}

/// Reads the word at `index`.
#[inline]
pub fn get32(mem: &[u8], index: usize) -> (value: u32)
    requires
        index + 4 <= mem@.len(),
    ensures
        value == word_at(mem@, index as int),
{
    le32(mem[index], mem[index + 1], mem[index + 2], mem[index + 3])
}

/// Writes the halfword at `index`.
#[inline]
pub fn set16(mem: &mut Vec<u8>, index: usize, value: u16)
    requires
        index + 2 <= old(mem)@.len(),
    ensures
        final(mem)@ == with_half(old(mem)@, index as int, value),
{
    assert(index + 2 <= mem.len());
    mem[index] = value as u8;
    mem[index + 1] = (value >> 8) as u8;
}

/// Writes the word at `index`.
#[inline]
pub fn set32(mem: &mut Vec<u8>, index: usize, value: u32)
    requires
        index + 4 <= old(mem)@.len(),
    ensures
        final(mem)@ == with_word(old(mem)@, index as int, value),
{
    assert(index + 4 <= mem.len());
    mem[index] = value as u8;
    mem[index + 1] = (value >> 8) as u8;
    mem[index + 2] = (value >> 16) as u8;
    mem[index + 3] = (value >> 24) as u8;
}

/// Splitting into bytes and joining them again gives the same value.
pub(crate) proof fn lemma_join_split(h: u16, w: u32)
    by (bit_vector)
    ensures
        (h as u8) as u16 | (((h >> 8) as u8) as u16) << 8 == h,
        (w as u8) as u32 | (((w >> 8) as u8) as u32) << 8 | (((w >> 16) as u8) as u32) << 16 | (((w
            >> 24) as u8) as u32) << 24 == w,
{
}

/// A halfword that was written reads back, and no other byte changes.
pub proof fn law_half_round_trip(m: Seq<u8>, index: int, value: u16)
    requires
        0 <= index,
        index + 2 <= m.len(),
    ensures
        half_at(with_half(m, index, value), index) == value,
        forall|i: int|
            0 <= i < m.len() && i != index && i != index + 1 ==> with_half(m, index, value)[i]
                == m[i],
{
    lemma_join_split(value, 0);
}

/// A word that was written reads back, and no other byte changes.
pub proof fn law_word_round_trip(m: Seq<u8>, index: int, value: u32)
    requires
        0 <= index,
        index + 4 <= m.len(),
    ensures
        word_at(with_word(m, index, value), index) == value,
        forall|i: int|
            0 <= i < m.len() && !(index <= i < index + 4) ==> with_word(m, index, value)[i] == m[i],
{
    lemma_join_split(0, value);
}

} // verus!
