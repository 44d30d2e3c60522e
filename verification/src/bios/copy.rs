//! The memory-moving calls: `CpuSet`, `CpuFastSet`, `RegisterRamReset` and
//! the affine helpers.

use vstd::prelude::*;

use crate::bios::trig::{affine, affine_matrix};
use crate::memory::io::reg;
use crate::memory::{
    base, Memory, EWRAM_SIZE, IWRAM_SIZE, OAM_SIZE, PALETTE_SIZE, VRAM_SIZE,
};

verus! {

broadcast use crate::bits::group_mask_bounds;

/// Memory after `words` zero words are written from `base` up.
pub open spec fn words_cleared<M: Memory>(s: M::State, base: u32, words: int) -> M::State
    decreases words,
{
    if words <= 0 {
        s
    } else {
        M::stored32(
            words_cleared::<M>(s, base, words - 1),
            (base + 4 * (words - 1)) as u32,
            0,
        )
    }
}

/// Memory after `size` bytes from `base` up are cleared, if `selected`.
pub open spec fn region_cleared<M: Memory>(
    s: M::State,
    selected: bool,
    base: u32,
    size: int,
) -> M::State {
    if selected {
        words_cleared::<M>(s, base, size / 4)
    } else {
        s
    }
}

/// Memory after `RegisterRamReset` with `flags`: the selected memories are
/// cleared, all of IWRAM but the top 0x200 bytes, which hold the BIOS's own
/// state, and bit 7 blanks the display.
pub open spec fn ram_reset<M: Memory>(s: M::State, flags: u8) -> M::State {
    let s1 = region_cleared::<M>(s, flags & 0x01 != 0, base::EWRAM, EWRAM_SIZE as int);
    let s2 = region_cleared::<M>(s1, flags & 0x02 != 0, base::IWRAM, IWRAM_SIZE - 0x200);
    let s3 = region_cleared::<M>(s2, flags & 0x04 != 0, base::PALETTE, PALETTE_SIZE as int);
    let s4 = region_cleared::<M>(s3, flags & 0x08 != 0, base::VRAM, VRAM_SIZE as int);
    let s5 = region_cleared::<M>(s4, flags & 0x10 != 0, base::OAM, OAM_SIZE as int);
    if flags & 0x80 != 0 {
        M::stored16(s5, 0x0400_0000, 0x0080)
    } else {
        s5
    }
}

/// Clears `size` bytes from `base` up, if `selected`.
fn clear<M: Memory>(mem: &mut M, selected: bool, base: u32, size: u32)
    requires
        old(mem).wf(),
        base + size <= u32::MAX,
    ensures
        final(mem).wf(),
        final(mem).state() == region_cleared::<M>(
            old(mem).state(),
            selected,
            base,
            size as int,
        ),
{
    if !selected {
        return;
    }
    let ghost s0 = mem.state();
    let words: u32 = size / 4;
    for i in 0..words
        invariant
            mem.wf(),
            base + 4 * words <= u32::MAX,
            mem.state() == words_cleared::<M>(s0, base, i as int),
    {
        mem.write32(base + 4 * i, 0);
    }
}

/// `RegisterRamReset`: clears the memories selected by `flags` and resets
/// most I/O registers.
pub(crate) fn register_ram_reset<M: Memory>(mem: &mut M, flags: u8)
    requires
        old(mem).wf(),
    ensures
        final(mem).wf(),
        final(mem).state() == ram_reset::<M>(old(mem).state(), flags),
{
    clear(mem, flags & 0x01 != 0, base::EWRAM, EWRAM_SIZE as u32);
    // Everything but the top 0x200 bytes, which hold the BIOS's own state.
    clear(mem, flags & 0x02 != 0, base::IWRAM, IWRAM_SIZE as u32 - 0x200);
    clear(mem, flags & 0x04 != 0, base::PALETTE, PALETTE_SIZE as u32);
    clear(mem, flags & 0x08 != 0, base::VRAM, VRAM_SIZE as u32);
    clear(mem, flags & 0x10 != 0, base::OAM, OAM_SIZE as u32);
    // Bits 5–7 reset the serial, sound and other I/O registers. We only
    // model the visible side effect games rely on: the display is blanked.
    if flags & 0x80 != 0 {
        mem.write16(base::IO + reg::DISPCNT, 0x0080);
    }
}

/// Memory after `count` words are copied from `src` to `dst`, or filled
/// with `fill`.
pub open spec fn words_set<M: Memory>(
    s: M::State,
    src: u32,
    dst: u32,
    fill: Option<u32>,
    count: int,
) -> M::State
    decreases count,
{
    if count <= 0 {
        s
    } else {
        let before = words_set::<M>(s, src, dst, fill, count - 1);
        let from = src.wrapping_add((4 * (count - 1)) as u32);
        let to = dst.wrapping_add((4 * (count - 1)) as u32);
        match fill {
            Some(value) => M::stored32(before, to, value),
            None => M::stored32(M::loaded32(before, from), to, M::value32(before, from)),
        }
    }
}

/// Memory after `count` halfwords are copied from `src` to `dst`, or filled
/// with `fill`.
pub open spec fn halves_set<M: Memory>(
    s: M::State,
    src: u32,
    dst: u32,
    fill: Option<u16>,
    count: int,
) -> M::State
    decreases count,
{
    if count <= 0 {
        s
    } else {
        let before = halves_set::<M>(s, src, dst, fill, count - 1);
        let from = src.wrapping_add((2 * (count - 1)) as u32);
        let to = dst.wrapping_add((2 * (count - 1)) as u32);
        match fill {
            Some(value) => M::stored16(before, to, value),
            None => M::stored16(M::loaded16(before, from), to, M::value16(before, from)),
        }
    }
}

/// Memory after `count` words are copied from `src` to `dst`, or filled
/// with the first word. The addresses are word-aligned, and the first word
/// is read before anything is written.
pub open spec fn word_set_memory<M: Memory>(
    s: M::State,
    src: u32,
    dst: u32,
    fill: bool,
    count: int,
) -> M::State {
    let from = src & !3u32;
    let filler = if fill {
        Some(M::value32(s, from))
    } else {
        None
    };
    words_set::<M>(M::loaded32(s, from), from, dst & !3u32, filler, count)
}

/// Memory after `CpuSet`: bits 20:0 of `control` count the units, bit 24
/// selects a fill with the first unit, bit 26 words rather than halfwords.
pub open spec fn cpu_set_memory<M: Memory>(
    s: M::State,
    src: u32,
    dst: u32,
    control: u32,
) -> M::State {
    let count = (control & 0x1F_FFFF) as int;
    let fill = control & (1u32 << 24) != 0;
    if control & (1u32 << 26) != 0 {
        word_set_memory::<M>(s, src, dst, fill, count)
    } else {
        let from = src & !1u32;
        halves_set::<M>(
            M::loaded16(s, from),
            from,
            dst & !1u32,
            if fill {
                Some(M::value16(s, from))
            } else {
                None
            },
            count,
        )
    }
}

/// Copies or fills `count` words.
fn set_words<M: Memory>(mem: &mut M, src: u32, dst: u32, fill: bool, count: u32)
    requires
        old(mem).wf(),
        count <= 0x20_0000,
    ensures
        final(mem).wf(),
        final(mem).state() == word_set_memory::<M>(
            old(mem).state(),
            src,
            dst,
            fill,
            count as int,
        ),
{
    let (src, dst) = (src & !3u32, dst & !3u32);
    let fill_value: u32 = mem.read32(src);
    let ghost s0 = mem.state();
    let ghost filler = if fill {
        Some(fill_value)
    } else {
        None
    };
    for i in 0..count
        invariant
            mem.wf(),
            count <= 0x20_0000,
            filler == if fill {
                Some(fill_value)
            } else {
                None
            },
            mem.state() == words_set::<M>(s0, src, dst, filler, i as int),
    {
        let value: u32 = if fill {
            fill_value
        } else {
            mem.read32(src.wrapping_add(4 * i))
        };
        mem.write32(dst.wrapping_add(4 * i), value);
    }
}

/// `CpuSet`: copy or fill `count` halfwords/words. Bit 24 of `control`
/// selects fill (source is read once), bit 26 selects 32-bit units.
pub(crate) fn cpu_set<M: Memory>(mem: &mut M, src: u32, dst: u32, control: u32)
    requires
        old(mem).wf(),
    ensures
        final(mem).wf(),
        final(mem).state() == cpu_set_memory::<M>(old(mem).state(), src, dst, control),
{
    let count: u32 = control & 0x1F_FFFF;
    let fill = control & (1u32 << 24) != 0;
    if control & (1u32 << 26) != 0 {
        set_words(mem, src, dst, fill, count);
    } else {
        let (src, dst) = (src & !1u32, dst & !1u32);
        let fill_value: u16 = mem.read16(src);
        let ghost s0 = mem.state();
        let ghost filler = if fill {
            Some(fill_value)
        } else {
            None
        };
        for i in 0..count
            invariant
                mem.wf(),
                count <= 0x1F_FFFF,
                filler == if fill {
                    Some(fill_value)
                } else {
                    None
                },
                mem.state() == halves_set::<M>(s0, src, dst, filler, i as int),
        {
            let value: u16 = if fill {
                fill_value
            } else {
                mem.read16(src.wrapping_add(2 * i))
            };
            mem.write16(dst.wrapping_add(2 * i), value);
        }
    }
}

/// Memory after `CpuFastSet`: words, bits 20:0 of `control` rounded up to
/// whole 8-word blocks, bit 24 selecting a fill.
pub open spec fn cpu_fast_set_memory<M: Memory>(
    s: M::State,
    src: u32,
    dst: u32,
    control: u32,
) -> M::State {
    let blocks = ((control & 0x1F_FFFF) as int + 7) / 8;
    word_set_memory::<M>(s, src, dst, control & (1u32 << 24) != 0, 8 * blocks)
}

/// `CpuFastSet`: like the 32-bit `CpuSet` but in 8-word blocks; a count
/// that is not a multiple of 8 is rounded up.
pub(crate) fn cpu_fast_set<M: Memory>(mem: &mut M, src: u32, dst: u32, control: u32)
    requires
        old(mem).wf(),
    ensures
        final(mem).wf(),
        final(mem).state() == cpu_fast_set_memory::<M>(old(mem).state(), src, dst, control),
{
    let count: u32 = ((control & 0x1F_FFFF) + 7) / 8 * 8;
    set_words(mem, src, dst, control & (1u32 << 24) != 0, count);
}

/// The parameters of one BG rotation set.
pub struct BgSource {
    /// Texture origin (24.8).
    pub ox: i32,
    /// Texture origin (24.8).
    pub oy: i32,
    /// Screen centre.
    pub cx: i32,
    /// Screen centre.
    pub cy: i32,
    /// Scale (8.8).
    pub sx: i32,
    /// Scale (8.8).
    pub sy: i32,
    /// Angle.
    pub theta: u16,
}

/// The BG rotation set at `src` and the memory after reading it.
pub open spec fn bg_source<M: Memory>(s: M::State, src: u32) -> (BgSource, M::State) {
    let s1 = M::loaded32(s, src);
    let s2 = M::loaded32(s1, src.wrapping_add(4));
    let s3 = M::loaded16(s2, src.wrapping_add(8));
    let s4 = M::loaded16(s3, src.wrapping_add(10));
    let s5 = M::loaded16(s4, src.wrapping_add(12));
    let s6 = M::loaded16(s5, src.wrapping_add(14));
    let s7 = M::loaded16(s6, src.wrapping_add(16));
    (
        BgSource {
            ox: M::value32(s, src) as i32,
            oy: M::value32(s1, src.wrapping_add(4)) as i32,
            cx: (M::value16(s2, src.wrapping_add(8)) as i16) as i32,
            cy: (M::value16(s3, src.wrapping_add(10)) as i16) as i32,
            sx: (M::value16(s4, src.wrapping_add(12)) as i16) as i32,
            sy: (M::value16(s5, src.wrapping_add(14)) as i16) as i32,
            theta: M::value16(s6, src.wrapping_add(16)) >> 8,
        },
        s7,
    )
}

/// Memory after the parameters PA–PD and the reference point that `p` gives
/// are written to `dst`.
pub open spec fn bg_written<M: Memory>(s: M::State, p: BgSource, dst: u32) -> M::State {
    let m = affine(p.sx, p.sy, p.theta);
    let dx = p.ox.wrapping_sub(m[0].wrapping_mul(p.cx).wrapping_add(m[1].wrapping_mul(p.cy)));
    let dy = p.oy.wrapping_sub(m[2].wrapping_mul(p.cx).wrapping_add(m[3].wrapping_mul(p.cy)));
    let s1 = M::stored16(s, dst, m[0] as u16);
    let s2 = M::stored16(s1, dst.wrapping_add(2), m[1] as u16);
    let s3 = M::stored16(s2, dst.wrapping_add(4), m[2] as u16);
    let s4 = M::stored16(s3, dst.wrapping_add(6), m[3] as u16);
    let s5 = M::stored32(s4, dst.wrapping_add(8), dx as u32);
    M::stored32(s5, dst.wrapping_add(12), dy as u32)
}

/// Memory after `BgAffineSet` for `count` sets: 20 source bytes and 16
/// destination bytes each.
pub open spec fn bg_affine_memory<M: Memory>(
    s: M::State,
    src: u32,
    dst: u32,
    count: int,
) -> M::State
    decreases count,
{
    if count <= 0 {
        s
    } else {
        let (p, read) = bg_source::<M>(s, src);
        bg_affine_memory::<M>(
            bg_written::<M>(read, p, dst),
            src.wrapping_add(20),
            dst.wrapping_add(16),
            count - 1,
        )
    }
}

/// `BgAffineSet`: `count` sets of BG rotation parameters.
///
/// Source (20 bytes): texture origin x/y (24.8), screen centre x/y
/// (s16), scale x/y (8.8), angle (upper byte used).
/// Destination (16 bytes): PA–PD then the reference point DX/DY.
pub(crate) fn bg_affine_set<M: Memory>(mem: &mut M, src: u32, dst: u32, count: u32)
    requires
        old(mem).wf(),
    ensures
        final(mem).wf(),
        final(mem).state() == bg_affine_memory::<M>(old(mem).state(), src, dst, count as int),
{
    let mut src: u32 = src;
    let mut dst: u32 = dst;
    let mut left: u32 = count;
    let ghost done = bg_affine_memory::<M>(mem.state(), src, dst, count as int);
    while left > 0
        invariant
            mem.wf(),
            done == bg_affine_memory::<M>(mem.state(), src, dst, left as int),
        decreases left,
    {
        let ox: i32 = mem.read32(src) as i32;
        let oy: i32 = mem.read32(src.wrapping_add(4)) as i32;
        let cx: i32 = (mem.read16(src.wrapping_add(8)) as i16) as i32;
        let cy: i32 = (mem.read16(src.wrapping_add(10)) as i16) as i32;
        let sx: i32 = (mem.read16(src.wrapping_add(12)) as i16) as i32;
        let sy: i32 = (mem.read16(src.wrapping_add(14)) as i16) as i32;
        let theta: u16 = mem.read16(src.wrapping_add(16)) >> 8;
        src = src.wrapping_add(20);

        let matrix: [i32; 4] = affine_matrix(sx, sy, theta);
        let (pa, pb, pc, pd) = (matrix[0], matrix[1], matrix[2], matrix[3]);
        let dx: i32 = ox.wrapping_sub(pa.wrapping_mul(cx).wrapping_add(pb.wrapping_mul(cy)));
        let dy: i32 = oy.wrapping_sub(pc.wrapping_mul(cx).wrapping_add(pd.wrapping_mul(cy)));
        mem.write16(dst, pa as u16);
        mem.write16(dst.wrapping_add(2), pb as u16);
        mem.write16(dst.wrapping_add(4), pc as u16);
        mem.write16(dst.wrapping_add(6), pd as u16);
        mem.write32(dst.wrapping_add(8), dx as u32);
        mem.write32(dst.wrapping_add(12), dy as u32);
        dst = dst.wrapping_add(16);
        left = left - 1;
    }
}

/// Memory after matrix `m` is written to `dst`, its parameters `stride`
/// bytes apart.
pub open spec fn obj_written<M: Memory>(
    s: M::State,
    m: Seq<i32>,
    dst: u32,
    stride: u32,
) -> M::State {
    let second = dst.wrapping_add(stride);
    let third = second.wrapping_add(stride);
    let fourth = third.wrapping_add(stride);
    M::stored16(
        M::stored16(
            M::stored16(M::stored16(s, dst, m[0] as u16), second, m[1] as u16),
            third,
            m[2] as u16,
        ),
        fourth,
        m[3] as u16,
    )
}

/// Memory after `ObjAffineSet` for `count` matrices of 8 source bytes each.
pub open spec fn obj_affine_memory<M: Memory>(
    s: M::State,
    src: u32,
    dst: u32,
    count: int,
    stride: u32,
) -> M::State
    decreases count,
{
    if count <= 0 {
        s
    } else {
        let s1 = M::loaded16(s, src);
        let s2 = M::loaded16(s1, src.wrapping_add(2));
        let s3 = M::loaded16(s2, src.wrapping_add(4));
        let m = affine(
            (M::value16(s, src) as i16) as i32,
            (M::value16(s1, src.wrapping_add(2)) as i16) as i32,
            M::value16(s2, src.wrapping_add(4)) >> 8,
        );
        obj_affine_memory::<M>(
            obj_written::<M>(s3, m, dst, stride),
            src.wrapping_add(8),
            dst.wrapping_add(stride).wrapping_add(stride).wrapping_add(stride).wrapping_add(
                stride,
            ),
            count - 1,
            stride,
        )
    }
}

/// `ObjAffineSet`: `count` OAM matrices, each parameter `stride` bytes
/// apart (2 for packed output, 8 to write straight into OAM).
pub(crate) fn obj_affine_set<M: Memory>(mem: &mut M, src: u32, dst: u32, count: u32, stride: u32)
    requires
        old(mem).wf(),
    ensures
        final(mem).wf(),
        final(mem).state() == obj_affine_memory::<M>(
            old(mem).state(),
            src,
            dst,
            count as int,
            stride,
        ),
{
    let mut src: u32 = src;
    let mut dst: u32 = dst;
    let mut left: u32 = count;
    let ghost done = obj_affine_memory::<M>(mem.state(), src, dst, count as int, stride);
    while left > 0
        invariant
            mem.wf(),
            done == obj_affine_memory::<M>(mem.state(), src, dst, left as int, stride),
        decreases left,
    {
        let sx: i32 = (mem.read16(src) as i16) as i32;
        let sy: i32 = (mem.read16(src.wrapping_add(2)) as i16) as i32;
        let theta: u16 = mem.read16(src.wrapping_add(4)) >> 8;
        src = src.wrapping_add(8);
        let matrix: [i32; 4] = affine_matrix(sx, sy, theta);
        mem.write16(dst, matrix[0] as u16);
        dst = dst.wrapping_add(stride);
        mem.write16(dst, matrix[1] as u16);
        dst = dst.wrapping_add(stride);
        mem.write16(dst, matrix[2] as u16);
        dst = dst.wrapping_add(stride);
        mem.write16(dst, matrix[3] as u16);
        dst = dst.wrapping_add(stride);
        left = left - 1;
    }
}

} // verus!
