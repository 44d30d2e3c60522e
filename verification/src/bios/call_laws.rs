//! What the BIOS calls do, said of their numbers and of memory.

use vstd::prelude::*;

use crate::bios::copy::{
    bg_written, cpu_fast_set_memory, cpu_set_memory, halves_set, ram_reset, word_set_memory,
    words_cleared, words_set, BgSource,
};
use crate::bios::decompress::{bit_unpacked, bytes_widened, Widening, Widths};
use crate::bios::laws::law_square_root;
use crate::bios::trig::{affine, sine_cosine};
use crate::bios::{serviced, Outcome};
use crate::cpu::CpuView;
use crate::memory::plain::plain;
use crate::memory::Memory;
use crate::ppu::obj::lemma_shift_bounds;

verus! {

broadcast use crate::bits::group_mask_bounds;

/// Call 8 leaves the square root of r0, rounded down, in r0, and nothing else
/// changes.
pub proof fn law_root_call<M: Memory>(cpu: CpuView, s: M::State)
    requires
        cpu.regs.wf(),
    ensures
        ({
            let (after, mem, outcome) = serviced::<M>(8, cpu, s);
            let root = after.regs.gpr[0];
            let n = cpu.regs.gpr[0];
            &&& root * root <= n
            &&& n < (root + 1) * (root + 1)
            &&& after == crate::cpu::arm::laws::with_register(cpu, 0, root)
            &&& mem == s
            &&& outcome == Outcome::Done
        }),
{
    reveal(serviced);
    law_square_root(cpu.regs.gpr[0]);
}

/// Calls 2 and 3 halt the processor; calls 4 and 5 wait for interrupts, the
/// latter for VBlank: both switch interrupts on, clear what they wait for from
/// the flags that handlers leave (the former where r0 says so), and halt.
/// Call 13 gives the checksum of the BIOS. Calls without a service are
/// reported.
pub proof fn law_control_calls<M: Memory>(cpu: CpuView, s: M::State)
    requires
        cpu.regs.wf(),
    ensures
        ({
            let cleared = |mask: u16|
                M::stored16(
                    M::loaded16(s, 0x0300_7FF8),
                    0x0300_7FF8,
                    M::value16(s, 0x0300_7FF8) & !mask,
                );
            let asked = cpu.regs.gpr[1] as u16;
            let halted = CpuView { halted: true, ..cpu };
            &&& serviced::<M>(2, cpu, s) == (halted, s, Outcome::Done)
            &&& serviced::<M>(3, cpu, s) == (halted, s, Outcome::Done)
            &&& serviced::<M>(4, cpu, s) == (
                halted,
                M::stored16(
                    if cpu.regs.gpr[0] != 0 {
                        cleared(asked)
                    } else {
                        s
                    },
                    0x0400_0208,
                    1,
                ),
                Outcome::WaitForInterrupt { mask: asked },
            )
            &&& serviced::<M>(5, cpu, s) == (
                halted,
                M::stored16(cleared(1), 0x0400_0208, 1),
                Outcome::WaitForInterrupt { mask: 1 },
            )
            &&& serviced::<M>(13, cpu, s).0.regs.gpr[0] == 0xBAAE_187F
            &&& serviced::<M>(0x13, cpu, s) == (cpu, s, Outcome::Unsupported)
            &&& serviced::<M>(0x2A, cpu, s) == (cpu, s, Outcome::Unsupported)
        }),
{
    reveal(serviced);
    crate::memory::chip_laws::law_interrupt_bits();
}

/// The other calls by their numbers: 10 the direction of a point, 11 and 12
/// the copies, 14 and 15 the rotations, 16 to 18 and 20, 21 the unpacking.
pub proof fn law_call_numbers<M: Memory>(cpu: CpuView, s: M::State)
    requires
        cpu.regs.wf(),
    ensures
        ({
            let (r0, r1, r2, r3) = (
                cpu.regs.gpr[0],
                cpu.regs.gpr[1],
                cpu.regs.gpr[2],
                cpu.regs.gpr[3],
            );
            &&& serviced::<M>(10, cpu, s).0.regs.gpr[0] == crate::bios::trig::arctan2_value(
                r0 as u16,
                r1 as u16,
            )
            &&& serviced::<M>(11, cpu, s).1 == crate::bios::copy::cpu_set_memory::<M>(s, r0, r1, r2)
            &&& serviced::<M>(12, cpu, s).1 == cpu_fast_set_memory::<M>(s, r0, r1, r2)
            &&& serviced::<M>(14, cpu, s).1 == crate::bios::copy::bg_affine_memory::<M>(
                s,
                r0,
                r1,
                r2 as int,
            )
            &&& serviced::<M>(15, cpu, s).1 == crate::bios::copy::obj_affine_memory::<M>(
                s,
                r0,
                r1,
                r2 as int,
                r3,
            )
            &&& serviced::<M>(16, cpu, s).1 == crate::bios::decompress::bit_unpacked::<M>(
                s,
                r0,
                r1,
                r2,
            )
            &&& serviced::<M>(17, cpu, s).1 == crate::bios::decompress::lz77_uncompressed::<M>(
                s,
                r0,
                r1,
                false,
            )
            &&& serviced::<M>(18, cpu, s).1 == crate::bios::decompress::lz77_uncompressed::<M>(
                s,
                r0,
                r1,
                true,
            )
            &&& serviced::<M>(20, cpu, s).1 == crate::bios::decompress::rl_uncompressed::<M>(
                s,
                r0,
                r1,
                false,
            )
            &&& serviced::<M>(21, cpu, s).1 == crate::bios::decompress::rl_uncompressed::<M>(
                s,
                r0,
                r1,
                true,
            )
        }),
{
    reveal(serviced);
}

/// Setting words changes no word but those from `dst` on, in plain memory.
pub proof fn law_words_elsewhere<M: Memory>(
    ok: spec_fn(M::State) -> bool,
    area: spec_fn(u32) -> bool,
    s: M::State,
    src: u32,
    dst: u32,
    fill: Option<u32>,
    count: int,
    at: u32,
)
    requires
        plain::<M>(ok, area),
        ok(s),
        0 <= count <= 0x20_0000,
        src + 4 * count <= u32::MAX,
        dst + 4 * count <= u32::MAX,
        forall|i: int| 0 <= i < count ==> area(#[trigger] ((src + 4 * i) as u32)),
        forall|i: int| 0 <= i < count ==> area(#[trigger] ((dst + 4 * i) as u32)),
        area(at),
        at < dst || at >= dst + 4 * count,
    ensures
        ok(words_set::<M>(s, src, dst, fill, count)),
        M::value32(words_set::<M>(s, src, dst, fill, count), at) == M::value32(s, at),
    decreases count,
{
    if count > 0 {
        let last = count - 1;
        let (from, to) = ((src + 4 * last) as u32, (dst + 4 * last) as u32);
        assert(area((src + 4 * last) as u32) && area((dst + 4 * last) as u32));
        law_words_elsewhere::<M>(ok, area, s, src, dst, fill, last, at);
        let before = words_set::<M>(s, src, dst, fill, last);
        assert(src.wrapping_add((4 * last) as u32) == from);
        assert(dst.wrapping_add((4 * last) as u32) == to);
        let read = M::loaded32(before, from);
        assert(ok(read));
        assert(M::value32(read, at) == M::value32(before, at));
    }
}

/// Setting words copies each of them, or fills each with one, between two
/// places of plain memory that do not overlap.
pub proof fn law_words_set<M: Memory>(
    ok: spec_fn(M::State) -> bool,
    area: spec_fn(u32) -> bool,
    s: M::State,
    src: u32,
    dst: u32,
    fill: Option<u32>,
    count: int,
    k: int,
)
    requires
        plain::<M>(ok, area),
        ok(s),
        0 <= count <= 0x20_0000,
        src + 4 * count <= u32::MAX,
        dst + 4 * count <= u32::MAX,
        forall|i: int| 0 <= i < count ==> area(#[trigger] ((src + 4 * i) as u32)),
        forall|i: int| 0 <= i < count ==> area(#[trigger] ((dst + 4 * i) as u32)),
        src + 4 * count <= dst || dst + 4 * count <= src,
        0 <= k < count,
    ensures
        M::value32(words_set::<M>(s, src, dst, fill, count), (dst + 4 * k) as u32) == match fill {
            Some(value) => value,
            None => M::value32(s, (src + 4 * k) as u32),
        },
    decreases count,
{
    let last = count - 1;
    let (from, to) = ((src + 4 * last) as u32, (dst + 4 * last) as u32);
    let at = (dst + 4 * k) as u32;
    assert(area((src + 4 * last) as u32) && area((dst + 4 * last) as u32));
    assert(area((dst + 4 * k) as u32));
    law_words_elsewhere::<M>(ok, area, s, src, dst, fill, last, from);
    let before = words_set::<M>(s, src, dst, fill, last);
    assert(src.wrapping_add((4 * last) as u32) == from);
    assert(dst.wrapping_add((4 * last) as u32) == to);
    let read = M::loaded32(before, from);
    assert(ok(read));
    if k < last {
        law_words_set::<M>(ok, area, s, src, dst, fill, last, k);
        assert(at != to);
        assert(M::value32(read, at) == M::value32(before, at));
    }
}

/// The fast copy sets the count of words in the low bits of its control,
/// rounded up to a multiple of eight, and fills where bit 24 is set.
#[verifier::rlimit(40)]
pub proof fn law_fast_set<M: Memory>(s: M::State, src: u32, dst: u32, count: u32, fill: bool)
    requires
        count < 0x20_0000,
    ensures
        ({
            let control = if fill {
                (count + 0x100_0000) as u32
            } else {
                count
            };
            cpu_fast_set_memory::<M>(s, src, dst, control) == word_set_memory::<M>(
                s,
                src,
                dst,
                fill,
                if count % 8 == 0 {
                    count as int
                } else {
                    count - count % 8 + 8
                },
            )
        }),
{
    crate::bits::control_facts(count);
    let control = if fill {
        (count + 0x100_0000) as u32
    } else {
        count
    };
    assert(control & 0x1F_FFFF == count);
    assert(fill == (control & (1u32 << 24) != 0));
    assert(8 * ((count + 7) / 8) == if count % 8 == 0 {
        count as int
    } else {
        count - count % 8 + 8
    });
}

/// A rotation matrix: scale by cosine, less scale by sine, scale by sine,
/// scale by cosine, each rounded down to a multiple of a 256th.
pub proof fn law_rotation_matrix(sx: i32, sy: i32, theta: u16)
    requires
        -0x8000 <= sx <= 0x7FFF,
        -0x8000 <= sy <= 0x7FFF,
        -256 <= sine_cosine(theta).0 <= 256,
        -256 <= sine_cosine(theta).1 <= 256,
    ensures
        ({
            let m = affine(sx, sy, theta);
            let (sin, cos) = sine_cosine(theta);
            let rounds = |r: i32, exact: int| 256 * r <= exact < 256 * r + 256;
            &&& rounds(m[0], sx * cos)
            &&& rounds(m[1], -(sx * sin))
            &&& rounds(m[2], sy * sin)
            &&& rounds(m[3], sy * cos)
        }),
{
    let (sin, cos) = sine_cosine(theta);
    lemma_bounded(sx as int, cos as int);
    lemma_bounded(sx as int, sin as int);
    lemma_bounded(sy as int, sin as int);
    lemma_bounded(sy as int, cos as int);
    lemma_shift_bounds((sx * cos) as i32);
    lemma_shift_bounds((-(sx * sin)) as i32);
    lemma_shift_bounds((sy * sin) as i32);
    lemma_shift_bounds((sy * cos) as i32);
}

proof fn lemma_bounded(a: int, b: int)
    requires
        -0x8000 <= a <= 0x8000,
        -256 <= b <= 256,
    ensures
        -0x80_0000 <= a * b <= 0x80_0000,
{
    assert(-0x80_0000 <= a * b <= 0x80_0000) by (nonlinear_arith)
        requires
            -0x8000 <= a <= 0x8000,
            -256 <= b <= 256,
    ;
}

/// A background rotation set writes its matrix and the reference point from
/// which the matrix takes the screen centre to the texture origin.
pub proof fn law_background_rotation<M: Memory>(
    s: M::State,
    p: BgSource,
    dst: u32,
    dx: i32,
    dy: i32,
)
    requires
        dst <= 0xFFFF_FFF0,
        ({
            let m = affine(p.sx, p.sy, p.theta);
            &&& m[0].wrapping_mul(p.cx).wrapping_add(m[1].wrapping_mul(p.cy)).wrapping_add(dx)
                == p.ox
            &&& m[2].wrapping_mul(p.cx).wrapping_add(m[3].wrapping_mul(p.cy)).wrapping_add(dy)
                == p.oy
        }),
    ensures
        ({
            let m = affine(p.sx, p.sy, p.theta);
            let s1 = M::stored16(s, dst, m[0] as u16);
            let s2 = M::stored16(s1, (dst + 2) as u32, m[1] as u16);
            let s3 = M::stored16(s2, (dst + 4) as u32, m[2] as u16);
            let s4 = M::stored16(s3, (dst + 6) as u32, m[3] as u16);
            let s5 = M::stored32(s4, (dst + 8) as u32, dx as u32);
            bg_written::<M>(s, p, dst) == M::stored32(s5, (dst + 12) as u32, dy as u32)
        }),
{
    let m = affine(p.sx, p.sy, p.theta);
    lemma_undone(m[0].wrapping_mul(p.cx).wrapping_add(m[1].wrapping_mul(p.cy)), dx, p.ox);
    lemma_undone(m[2].wrapping_mul(p.cx).wrapping_add(m[3].wrapping_mul(p.cy)), dy, p.oy);
}

proof fn lemma_undone(a: i32, b: i32, c: i32)
    requires
        a.wrapping_add(b) == c,
    ensures
        c.wrapping_sub(a) == b,
{
}

/// Call 1 clears the memories whose bits are set, from the lowest bit: both
/// work memories, the second without its last 512 bytes, the palette, video
/// memory and sprites; the highest bit blanks the screen.
pub proof fn law_reset_call<M: Memory>(s: M::State)
    ensures
        ram_reset::<M>(s, 1) == words_cleared::<M>(s, 0x0200_0000, 0x1_0000),
        ram_reset::<M>(s, 2) == words_cleared::<M>(s, 0x0300_0000, 0x1F80),
        ram_reset::<M>(s, 4) == words_cleared::<M>(s, 0x0500_0000, 0x100),
        ram_reset::<M>(s, 8) == words_cleared::<M>(s, 0x0600_0000, 0x6000),
        ram_reset::<M>(s, 16) == words_cleared::<M>(s, 0x0700_0000, 0x100),
        ram_reset::<M>(s, 128) == M::stored16(s, 0x0400_0000, 0x80),
{
    crate::bits::constant_facts();
}

/// Clearing words leaves each of them zero, in plain memory.
pub proof fn law_words_cleared<M: Memory>(
    ok: spec_fn(M::State) -> bool,
    area: spec_fn(u32) -> bool,
    s: M::State,
    base: u32,
    words: int,
    k: int,
)
    requires
        plain::<M>(ok, area),
        ok(s),
        0 <= words,
        base + 4 * words <= u32::MAX,
        forall|i: int| 0 <= i < words ==> area(#[trigger] ((base + 4 * i) as u32)),
    ensures
        ok(words_cleared::<M>(s, base, words)),
        0 <= k < words ==> M::value32(
            words_cleared::<M>(s, base, words),
            (base + 4 * k) as u32,
        ) == 0,
    decreases words,
{
    if words > 0 {
        assert(area((base + 4 * (words - 1)) as u32));
        law_words_cleared::<M>(ok, area, s, base, words - 1, k);
        if 0 <= k < words {
            assert(area((base + 4 * k) as u32));
        }
    }
}

/// The copy by control word: the count in its low bits, filling where bit 24
/// is set, words where bit 26 is set and halfwords otherwise.
#[verifier::rlimit(40)]
pub proof fn law_copy_control<M: Memory>(s: M::State, src: u32, dst: u32, count: u32, fill: bool)
    requires
        count < 0x20_0000,
        src % 4 == 0,
        dst % 4 == 0,
    ensures
        ({
            let control = (count + if fill {
                0x100_0000int
            } else {
                0
            }) as u32;
            cpu_set_memory::<M>(s, src, dst, control) == halves_set::<M>(
                M::loaded16(s, src),
                src,
                dst,
                if fill {
                    Some(M::value16(s, src))
                } else {
                    None
                },
                count as int,
            )
        }),
        ({
            let control = (count + 0x400_0000 + if fill {
                0x100_0000int
            } else {
                0
            }) as u32;
            cpu_set_memory::<M>(s, src, dst, control) == words_set::<M>(
                M::loaded32(s, src),
                src,
                dst,
                if fill {
                    Some(M::value32(s, src))
                } else {
                    None
                },
                count as int,
            )
        }),
{
    crate::cpu::arm::transfer_laws::lemma_aligned_word(src);
    crate::cpu::arm::transfer_laws::lemma_aligned_word(dst);
    crate::bits::control_facts(count);
}

/// The parameters of the bit unpacking: the length in bytes, the widths of
/// units before and after, and an offset with a flag in its highest bit.
#[verifier::rlimit(40)]
pub proof fn law_unpack_parameters<M: Memory>(s: M::State, src: u32, dst: u32, info: u32)
    requires
        info <= 0xFFFF_FFF0,
    ensures
        ({
            let s1 = M::loaded16(s, info);
            let s2 = M::loaded8(s1, (info + 2) as u32);
            let s3 = M::loaded8(s2, (info + 3) as u32);
            let s4 = M::loaded32(s3, (info + 4) as u32);
            let from = M::value8(s1, (info + 2) as u32);
            let to = M::value8(s2, (info + 3) as u32);
            let offset = M::value32(s3, (info + 4) as u32);
            let units = Widths {
                src_bits: from as u32,
                dst_bits: to as u32,
                offset: (offset as int % 0x8000_0000) as u32,
                offset_zeros: offset >= 0x8000_0000,
            };
            (from == 1 || from == 2 || from == 4 || from == 8) && (to == 1 || to == 2 || to == 4
                || to == 8 || to == 16 || to == 32) ==> bit_unpacked::<M>(s, src, dst, info)
                == bytes_widened::<M>(
                Widening { mem: s4, dst, word: 0, bits: 0 },
                units,
                src,
                M::value16(s, info) as int,
            ).mem
        }),
{
    let s1 = M::loaded16(s, info);
    let s2 = M::loaded8(s1, (info + 2) as u32);
    let s3 = M::loaded8(s2, (info + 3) as u32);
    crate::bits::control_facts(M::value32(s3, (info + 4) as u32));
}

} // verus!
