//! Facts about masks and shifts that the solver does not know by itself.

use vstd::prelude::*;

verus! {

/// Masking never exceeds the mask, in any width.
proof fn mask_bounds(w: u32, wm: u32, h: u16, hm: u16, b: u8, bm: u8, s: usize, sm: usize)
    by (bit_vector)
    ensures
        w & wm <= wm,
        h & hm <= hm,
        b & bm <= bm,
        s & sm <= sm,
{
}

/// Masking never exceeds the mask.
pub broadcast proof fn mask_bound_u32(x: u32, m: u32)
    ensures
        #[trigger] (x & m) <= m,
{
    mask_bounds(x, m, 0, 0, 0, 0, 0, 0);
}

/// Masking never exceeds the mask.
pub broadcast proof fn mask_bound_u16(x: u16, m: u16)
    ensures
        #[trigger] (x & m) <= m,
{
    mask_bounds(0, 0, x, m, 0, 0, 0, 0);
}

/// Masking never exceeds the mask.
pub broadcast proof fn mask_bound_u8(x: u8, m: u8)
    ensures
        #[trigger] (x & m) <= m,
{
    mask_bounds(0, 0, 0, 0, x, m, 0, 0);
}

/// Masking never exceeds the mask.
pub broadcast proof fn mask_bound_usize(x: usize, m: usize)
    ensures
        #[trigger] (x & m) <= m,
{
    mask_bounds(0, 0, 0, 0, 0, 0, x, m);
}

pub broadcast group group_mask_bounds {
    mask_bound_u32,
    mask_bound_u16,
    mask_bound_u8,
    mask_bound_usize,
}

/// Setting or clearing bits outside the mode field leaves the mode field
/// alone, and replacing the field replaces just that.
pub(crate) proof fn mode_field_facts()
    by (bit_vector)
    ensures
        forall|v: u32, b: u32| b & 0x1F == 0 ==> #[trigger] (v | b) & 0x1F == v & 0x1F,
        forall|v: u32, b: u32| b & 0x1F == 0 ==> #[trigger] (v & !b) & 0x1F == v & 0x1F,
        forall|v: u32, b: u32| b <= 0x1F ==> #[trigger] ((v & !0x1Fu32) | b) & 0x1F == b,
        forall|v: u32, w: u32| #[trigger] ((v & !0x1Fu32) | (w & 0x1F)) & 0x1F == w & 0x1F,
        forall|v: u32| (#[trigger] (v & 0x1F)) & 0x1F == v & 0x1F,
{
}

/// The highest bits of a byte and of a halfword make small numbers.
pub(crate) proof fn high_field_facts(b: u8, h: u16)
    by (bit_vector)
    ensures
        b >> 4 <= 15,
        h >> 12 <= 15,
        h >> 14 <= 3,
{
}

/// Clearing the low bits rounds down to a multiple.
pub(crate) proof fn alignment_facts()
    by (bit_vector)
    ensures
        forall|x: u32| (#[trigger] (x & !1u32)) % 2 == 0,
        forall|x: u32| (#[trigger] (x & !1u32)) <= x,
        forall|x: u32| (#[trigger] (x & !3u32)) % 4 == 0,
        forall|x: u32| (#[trigger] (x & !3u32)) <= x,
{
}

/// What masks and shifts of fixed numbers give.
pub(crate) proof fn constant_facts()
    by (bit_vector)
    ensures
        0x004u32 & !1u32 == 0x004,
        0x006u32 & !1u32 == 0x006,
        0x130u32 & !1u32 == 0x130,
        0x202u32 & !1u32 == 0x202,
        0x0400_0130u32 & !1u32 == 0x0400_0130,
        0x0400_0130u32 & 0x00FF_FFFF == 0x130,
        0x0400_0130u32 >> 24 == 4,
        0x5555u32 & 0xFFFF == 0x5555,
        0x2AAAu32 & 0xFFFF == 0x2AAA,
        0u32 & 0xFFFF == 0,
        1u16 | (0u16 << 8) == 1u16,
        1u16 >> 8 == 0,
        1u16 & 1 == 1,
        0u16 & 1 == 0,
        (0u8 << 1) | 1 == 1,
        (1u8 << 1) | 0 == 2,
        (1u8 << 1) | 1 == 3,
        0xD3u32 & 0x1F == 0x13,
        0xD3u32 == (1u32 << 7) | (1u32 << 6) | 0x13,
        0xFFFF_FFFCu32 == !3u32,
        0x0000_00FFu32 | 0 | 0 | 0xFF00_0000 == 0xFF00_00FF,
        0xFF00_00FFu32 & !(1u32 << 5) == 0xFF00_00DF,
        1u8 & 1 != 0 && 1u8 & 2 == 0 && 1u8 & 4 == 0 && 1u8 & 8 == 0 && 1u8 & 16 == 0 && 1u8 & 128
            == 0,
        2u8 & 1 == 0 && 2u8 & 2 != 0 && 2u8 & 4 == 0 && 2u8 & 8 == 0 && 2u8 & 16 == 0 && 2u8 & 128
            == 0,
        4u8 & 1 == 0 && 4u8 & 2 == 0 && 4u8 & 4 != 0 && 4u8 & 8 == 0 && 4u8 & 16 == 0 && 4u8 & 128
            == 0,
        8u8 & 1 == 0 && 8u8 & 2 == 0 && 8u8 & 4 == 0 && 8u8 & 8 != 0 && 8u8 & 16 == 0 && 8u8 & 128
            == 0,
        16u8 & 1 == 0 && 16u8 & 2 == 0 && 16u8 & 4 == 0 && 16u8 & 8 == 0 && 16u8 & 16 != 0 && 16u8
            & 128 == 0,
        128u8 & 1 == 0 && 128u8 & 2 == 0 && 128u8 & 4 == 0 && 128u8 & 8 == 0 && 128u8 & 16 == 0
            && 128u8 & 128 != 0,
        0xFFFF_FFFEu32 == !1u32,
{
}

/// Small facts about a byte, a halfword, a word and a double word.
pub(crate) proof fn small_facts(b: u8, h: u16, w: u32, d: u64)
    by (bit_vector)
    ensures
        b | 0 == b,
        b & 0x80 == 0 ==> b & 0x7F == b && b < 128,
        b & 0x80 != 0 ==> b >= 128 && b & 0x7F == b - 128,
        b < 128 ==> b & 0x7F == b && b & 0x80 == 0,
        b < 128 ==> ((b + 128) as u8) & 0x7F == b && ((b + 128) as u8) & 0x80 != 0,
        ((h >> 4) & 0x8) | (h & 0x7) < 16,
        forall|n: u16| n <= 7 ==> #[trigger] (h >> n) <= h,
        (h & !(1u16 << 15)) & (1u16 << 15) == 0,
        0u32 & !0x1Fu32 | w == w,
        !w == 0xFFFF_FFFFu32 - w,
        (!w) as i32 == -1 - (w as i32),
        w == 0 || w == 4 || w == 8 || w == 0xC || w == 0x10 || w == 0x18 || w == 0x1C ==> w & !3u32
            == w,
        w <= 8 ==> 1u32 << w >= 1,
        (0u64 << 1) | d == d,
        w < 0x8000_0000 ==> (w as i32) == w,
        w >= 0x8000_0000 ==> (w as i32) == w - 0x1_0000_0000,
        h < 0x8000 ==> (h as i16) == h,
        h >= 0x8000 ==> (h as i16) == h - 0x1_0000,
        b < 0x80 ==> (b as i8) == b,
        b >= 0x80 ==> (b as i8) == b - 0x100,
        forall|n: u8, m: u8|
            n < 4 && m < 4 ==> (#[trigger] ((b | (1u8 << n)) >> m)) & 1 == if n == m {
                1
            } else {
                (b >> m) & 1
            },
{
}

/// Facts about words, each under the bounds on shifts and places that it
/// needs.
pub(crate) proof fn word_facts(v: u32, w: u32, n: u32, i: u32)
    by (bit_vector)
    ensures
        (n == 28 || n == 29 || n == 30 || n == 31) ==>
            ((v & (1u32 << n) != 0) == ((v >> n) & 1 == 1)),
        (n == 28 || n == 29 || n == 30 || n == 31) ==>
            ((v & (1u32 << 31) != 0) == (v >= 0x8000_0000)),
        (n == 28 || n == 29 || n == 30 || n == 31) ==> (((v | (1u32 << n)) >> n) & 1 == 1),
        (n == 28 || n == 29 || n == 30 || n == 31) ==> (((v & !(1u32 << n)) >> n) & 1 == 0),
        (n == 28 || n == 29 || n == 30 || n == 31) ==>
            (n != 28 ==> ((v | (1u32 << n)) >> 28) & 1 == (v >> 28) & 1),
        (n == 28 || n == 29 || n == 30 || n == 31) ==>
            (n != 28 ==> ((v & !(1u32 << n)) >> 28) & 1 == (v >> 28) & 1),
        (n == 28 || n == 29 || n == 30 || n == 31) ==>
            (n != 29 ==> ((v | (1u32 << n)) >> 29) & 1 == (v >> 29) & 1),
        (n == 28 || n == 29 || n == 30 || n == 31) ==>
            (n != 29 ==> ((v & !(1u32 << n)) >> 29) & 1 == (v >> 29) & 1),
        (n == 28 || n == 29 || n == 30 || n == 31) ==>
            (n != 30 ==> ((v | (1u32 << n)) >> 30) & 1 == (v >> 30) & 1),
        (n == 28 || n == 29 || n == 30 || n == 31) ==>
            (n != 30 ==> ((v & !(1u32 << n)) >> 30) & 1 == (v >> 30) & 1),
        (n == 28 || n == 29 || n == 30 || n == 31) ==>
            (n != 31 ==> ((v | (1u32 << n)) >> 31) & 1 == (v >> 31) & 1),
        (n == 28 || n == 29 || n == 30 || n == 31) ==>
            (n != 31 ==> ((v & !(1u32 << n)) >> 31) & 1 == (v >> 31) & 1),
        (n == 28 || n == 29 || n == 30 || n == 31) ==>
            ((v | (1u32 << n)) % 0x1000_0000 == v % 0x1000_0000),
        (n == 28 || n == 29 || n == 30 || n == 31) ==>
            ((v & !(1u32 << n)) % 0x1000_0000 == v % 0x1000_0000),
        (n == 28 || n == 29 || n == 30 || n == 31) ==> (v == 0 || (v & 1 == 1) || (v & 1 == 0)),
        (1 <= n) && (n <= 31) && (i < 32) ==>
            (i >= n ==> ((v << n) >> i) & 1 == (v >> ((i - n) as u32)) & 1),
        (1 <= n) && (n <= 31) && (i < 32) ==> (i < n ==> ((v << n) >> i) & 1 == 0),
        (1 <= n) && (n <= 31) && (i < 32) ==>
            (i + n < 32 ==> ((v >> n) >> i) & 1 == (v >> ((i + n) as u32)) & 1),
        (1 <= n) && (n <= 31) && (i < 32) ==> (i + n >= 32 ==> ((v >> n) >> i) & 1 == 0),
        (1 <= n) && (n <= 31) && (i < 32) ==>
            (i + n < 32 ==> ((((v as i32) >> n) as u32) >> i) & 1 == (v >> ((i + n) as u32)) & 1),
        (1 <= n) && (n <= 31) && (i < 32) ==>
            (i + n >= 32 ==> ((((v as i32) >> n) as u32) >> i) & 1 == (v >> 31) & 1),
        (1 <= n) && (n <= 31) && (i < 32) ==>
            ((((v >> n) | (v << ((32 - n) as u32))) >> i) & 1
                == (v >> (((i + n) % 32) as u32)) & 1),
        (1 <= n) && (n <= 31) && (i < 32) ==>
            (((((v as i32) >> 31u32) as u32) >> i) & 1 == (v >> 31) & 1),
        (1 <= n) && (n <= 31) && (i < 32) ==> ((0u32 >> i) & 1 == 0),
        (1 <= n) && (n <= 31) && (i < 32) ==> ((v >> i) & 1 == 1 || (v >> i) & 1 == 0),
        (1 <= n) && (n <= 31) && (i < 32) ==> ((v >> 31 != 0) == ((v >> 31) & 1 == 1)),
        (1 <= n) && (n <= 31) && (i < 32) ==> ((v & 1 != 0) == ((v >> 0u32) & 1 == 1)),
        (1 <= n) && (n <= 31) && (i < 32) ==>
            (i == 31 ==> (((1u32 << 31) | (v >> 1)) >> i) & 1 == 1),
        (1 <= n) && (n <= 31) && (i < 32) ==>
            (i == 31 ==> (((0u32 << 31) | (v >> 1)) >> i) & 1 == 0),
        (1 <= n) && (n <= 31) && (i < 32) ==>
            (i < 31 ==> (((1u32 << 31) | (v >> 1)) >> i) & 1 == (v >> ((i + 1) as u32)) & 1),
        (1 <= n) && (n <= 31) && (i < 32) ==>
            (i < 31 ==> (((0u32 << 31) | (v >> 1)) >> i) & 1 == (v >> ((i + 1) as u32)) & 1),
        v & 0xFF == v % 256,
        (v & 0xFF) & 0xFF == v % 256,
        (v & 0xFF) & 0x1F == (v & 0xFF) % 32,
        v < 4 ==> v & 3 == v,
        v % 4 == 0 ==> v & !3u32 == v && v & 3 == 0,
        v % 2 == 0 ==> v & !1u32 == v && v & 1 == 0,
        v % 2 == 1 ==> v & 1 == 1,
        v & 3 == v % 4,
        v & !3u32 == v - v % 4,
        v & !1u32 == v - v % 2,
        (v | (1u32 << 5)) & (1u32 << 5) != 0,
        (v & !(1u32 << 5)) & (1u32 << 5) == 0,
        ((v & !0xFF00_0000u32) | (w & 0xFF00_0000)) / 0x100_0000 == w / 0x100_0000,
        ((v & !0xFF00_0000u32) | (w & 0xFF00_0000)) % 0x100_0000 == v % 0x100_0000,
        ((v & !0xFF00_0000u32) | (w & 0xFF00_0000)) & 0x1F == v & 0x1F,
        0u32 | 0 | 0 | 0xFF00_0000 == 0xFF00_0000u32,
        0xFF00_0000u32 & 0xFF00_0000 == 0xFF00_0000,
        0xFF00_0000u32 & !(1u32 << 5) == 0xFF00_0000,
        (w <= 0x1F) ==> (((v & !0x1Fu32) | w) & 0x1F == w),
        (w <= 0x1F) ==> (((v & !0x1Fu32) | (v & 0x1F)) == v),
        (w <= 0x1F) ==> ((((v & !0x1Fu32) | w) & !0x1Fu32) | (v & 0x1F) == v),
        (w <= 0x1F) ==> ((v & !0x1Fu32) & !0x1Fu32 == v & !0x1Fu32),
        (w <= 0x1F) ==> (((v & !0x1Fu32) | w) & !0x1Fu32 == v & !0x1Fu32),
        ((v & !(1u32 << 5)) | (1u32 << 7)) & (1u32 << 5) == 0,
        ((v & !(1u32 << 5)) | (1u32 << 7)) & (1u32 << 7) != 0,
        ((v & !(1u32 << 5)) | (1u32 << 7)) & 0x1F == v & 0x1F,
        (((v & !(1u32 << 5)) | (1u32 << 7)) | (1u32 << 6)) & (1u32 << 5) == 0,
        (((v & !(1u32 << 5)) | (1u32 << 7)) | (1u32 << 6)) & (1u32 << 7) != 0,
        (((v & !(1u32 << 5)) | (1u32 << 7)) | (1u32 << 6)) & 0x1F == v & 0x1F,
        v & 1 == v % 2,
        v & 15 == v % 16,
        v & 255 == v % 256,
        (n < 32) && (v < 1u32 << n) ==> (v | (w << n) == v + (w << n)),
        v & 0xFFF == v % 0x1000,
        v <= 0xFFFF ==> v & 0xFFFF == v,
        (v & 0xFFFF) & 0xFFFF == v & 0xFFFF,
        ((v & !1u32) & 0x00FF_FFFF) % 2 == 0,
        ((v & !1u32) & 0x00FF_FFFF & 0x3_FFFF) % 2 == 0,
        ((v & !1u32) & 0x00FF_FFFF & 0x7FFF) % 2 == 0,
        ((v & !1u32) & 0x00FF_FFFF & 0x3FF) % 2 == 0,
        ((v & !1u32) & 0x00FF_FFFF & 0x1_FFFF) % 2 == 0,
        ((v & !3u32) & 0x00FF_FFFF) % 4 == 0,
        ((v & !3u32) & 0x00FF_FFFF & 0x3_FFFF) % 4 == 0,
        ((v & !3u32) & 0x00FF_FFFF & 0x7FFF) % 4 == 0,
        ((v & !3u32) & 0x00FF_FFFF & 0x3FF) % 4 == 0,
        ((v & !3u32) & 0x00FF_FFFF & 0x1_FFFF) % 4 == 0,
        (v % 4 == 0) && ((0x0200_0000 <= v && v < 0x0204_0000) || (0x0300_0000 <= v && v < 0x0300_8000)) ==>
            (v & !3u32 == v),
        (v % 4 == 0) && ((0x0200_0000 <= v && v < 0x0204_0000) || (0x0300_0000 <= v && v < 0x0300_8000)) ==>
            (v < 0x0300_0000 ==> v >> 24 == 2 && (v & 0x00FF_FFFF) & 0x3_FFFF == v - 0x0200_0000),
        (v % 4 == 0) && ((0x0200_0000 <= v && v < 0x0204_0000) || (0x0300_0000 <= v && v < 0x0300_8000)) ==>
            (v >= 0x0300_0000 ==> v >> 24 == 3 && (v & 0x00FF_FFFF) & 0x7FFF == v - 0x0300_0000),
        v & 0xFFF_FFFF < 0x800_0000 ==> (((v << 4) as i32) >> 4u32) == (v & 0xFFF_FFFF) as i32,
        v & 0xFFF_FFFF >= 0x800_0000 ==> (((v << 4) as i32) >> 4u32) == (v & 0xFFF_FFFF) as i32
            - 0x1000_0000,
        v < 0x2_0000 ==> v & 0x1_FFFF == v,
        v < 0x0800_0000 ==> v & 0x07FF_FFFF == v,
        v < 0x0800_0000 ==> v & 0x0FFF_FFFF == v,
        v < 0x20_0000 ==> v & 0x1F_FFFF == v,
        v < 0x20_0000 ==> v & (1u32 << 24) == 0,
        v < 0x20_0000 ==> ((v + 0x100_0000) as u32) & 0x1F_FFFF == v,
        v < 0x20_0000 ==> ((v + 0x100_0000) as u32) & (1u32 << 24) != 0,
        v & 0x00FF_FFFF == v % 0x100_0000,
        (v & 0x00FF_FFFF) & 0x3_FFFF == v % 0x4_0000,
        (v & 0x00FF_FFFF) & 0x7FFF == v % 0x8000,
        (v & 0x00FF_FFFF) & 0x3FF == v % 0x400,
        (v & 0x00FF_FFFF) & 0x1_FFFF == v % 0x2_0000,
        v & 0x1_FFFF == v % 0x2_0000,
        v & 0x01FF_FFFF == v % 0x200_0000,
        v >> 24 == v / 0x100_0000,
        (v >> 1) & 0xFFFF == (v / 2) % 0x1_0000,
        (v < 0x1_0000) && (w < 0x1_0000) ==>
            ((((n & 0xFFFF_0000) | v) & 0xFFFF) | (w << 16)) == v + w
            * 0x1_0000,
        ((v & !0xFF00_00DFu32) | (w & 0xFF00_00DF)) & 0x1F == w & 0x1F,
        v % 2 == 0 ==> v | 1 == v + 1,
        v % 2 == 0 ==> v & !2u32 == v - v % 4,
        v & (1u32 << 29) != 0 ==> v | (1u32 << 29) == v,
        v & (1u32 << 29) == 0 ==> v & !(1u32 << 29) == v,
        (16 <= v <= 224) && (1 <= n <= 16) ==> (32 <= v << n),
        (16 <= v <= 224) && (1 <= n <= 16) ==> (v << n <= 0xE0_0000),
{
}

/// Facts about halfwords.
pub(crate) proof fn half_facts(v: u16, w: u16)
    by (bit_vector)
    ensures
        (v & 0x00C7) & (1u16 << 7) == v & (1u16 << 7),
        (v & 0xFFE0) & (1u16 << 15) == v & (1u16 << 15),
        ((v & 0xFFE0) >> 12) & 3 == (v >> 12) & 3,
        v ^ w == w ^ v,
        (v & (1u16 << 3) != 0) == ((v >> 3) & 1 == 1),
        (v & (1u16 << 4) != 0) == ((v >> 4) & 1 == 1),
        (v & (1u16 << 5) != 0) == ((v >> 5) & 1 == 1),
        ((v | (1u16 << 1)) >> 1) & 1 == 1,
        (v | (1u16 << 1)) & 1 == v & 1,
        (v | (1u16 << 1)) >> 2 == v >> 2,
        ((v & !((1u16 << 1) | (1u16 << 2))) >> 1) & 1 == 0,
        ((v & !((1u16 << 1) | (1u16 << 2))) >> 2) & 1 == 0,
        (v & !((1u16 << 1) | (1u16 << 2))) & 1 == v & 1,
        (v & !((1u16 << 1) | (1u16 << 2))) >> 3 == v >> 3,
        (v & !((1u16 << 1) | (1u16 << 2))) >> 8 == v >> 8,
        (v | (1u16 << 0)) & 1 == 1,
        (v | (1u16 << 0)) >> 1 == v >> 1,
        ((v | (1u16 << 0)) >> 1) & 1 == (v >> 1) & 1,
        ((v | (1u16 << 0)) >> 2) & 1 == (v >> 2) & 1,
        (v | (1u16 << 0)) >> 3 == v >> 3,
        (v | (1u16 << 0)) >> 8 == v >> 8,
        (v & !(1u16 << 0)) & 1 == 0,
        ((v & !(1u16 << 0)) >> 1) & 1 == (v >> 1) & 1,
        ((v & !(1u16 << 0)) >> 2) & 1 == (v >> 2) & 1,
        (v & !(1u16 << 0)) >> 3 == v >> 3,
        (v & !(1u16 << 0)) >> 8 == v >> 8,
        ((v | (1u16 << 2)) >> 2) & 1 == 1,
        ((v | (1u16 << 2)) >> 1) & 1 == (v >> 1) & 1,
        (v | (1u16 << 2)) & 1 == v & 1,
        (v | (1u16 << 2)) >> 3 == v >> 3,
        ((v | (1u16 << 0)) >> 3) & 1 == (v >> 3) & 1,
        ((v | (1u16 << 2)) >> 5) & 1 == (v >> 5) & 1,
        ((v | (1u16 << 0)) >> 5) & 1 == (v >> 5) & 1,
        ((v & !(1u16 << 0)) >> 5) & 1 == (v >> 5) & 1,
        ((v & !((1u16 << 1) | (1u16 << 2))) >> 5) & 1 == (v >> 5) & 1,
        ((v & !((1u16 << 1) | (1u16 << 2))) >> 3) & 1 == (v >> 3) & 1,
        v & 1 == 0 || v & 1 == 1,
        (v >> 2) & 1 == 0 || (v >> 2) & 1 == 1,
{
}

/// The fields of control words.
pub(crate) proof fn control_facts(v: u32)
    by (bit_vector)
    ensures
        v < 0x20_0000 ==> v & 0x1F_FFFF == v,
        v < 0x20_0000 ==> v & (1u32 << 24) == 0 && v & (1u32 << 26) == 0,
        v < 0x20_0000 ==> ((v + 0x100_0000) as u32) & 0x1F_FFFF == v,
        v < 0x20_0000 ==> ((v + 0x100_0000) as u32) & (1u32 << 24) != 0,
        v < 0x20_0000 ==> ((v + 0x100_0000) as u32) & (1u32 << 26) == 0,
        v < 0x20_0000 ==> ((v + 0x400_0000) as u32) & 0x1F_FFFF == v,
        v < 0x20_0000 ==> ((v + 0x400_0000) as u32) & (1u32 << 24) == 0,
        v < 0x20_0000 ==> ((v + 0x400_0000) as u32) & (1u32 << 26) != 0,
        v < 0x20_0000 ==> ((v + 0x500_0000) as u32) & 0x1F_FFFF == v,
        v < 0x20_0000 ==> ((v + 0x500_0000) as u32) & (1u32 << 24) != 0,
        v < 0x20_0000 ==> ((v + 0x500_0000) as u32) & (1u32 << 26) != 0,
        v & 0x7FFF_FFFF == v % 0x8000_0000,
        v >> 8 == v / 0x100,
        v >> 16 == v / 0x1_0000,
        v >> 24 == v / 0x100_0000,
        (v & (1u32 << 31) != 0) == (v >= 0x8000_0000),
{
}

} // verus!
