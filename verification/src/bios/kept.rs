//! BIOS calls change memory through their accesses alone: what those keep
//! they keep.

use vstd::prelude::*;

use crate::bios::copy::{
    bg_affine_memory, bg_source, bg_written, cpu_fast_set_memory, cpu_set_memory, halves_set,
    obj_affine_memory, obj_written, ram_reset, region_cleared, word_set_memory, words_cleared,
    words_set,
};
use crate::bios::decompress::{
    bit_unpacked, bytes_widened, bytes_written, cut, halves_written, literals, lz77_run, lz77_token,
    lz77_uncompressed, missing, rl_run, rl_token, rl_uncompressed, units_added, written_out,
    Unpacking, Widening, Widths,
};
use crate::bios::serviced;
use crate::bios::trig::affine;
use crate::cpu::CpuView;
use crate::memory::kept::kept;
use crate::memory::{base, Memory, EWRAM_SIZE, IWRAM_SIZE, OAM_SIZE, PALETTE_SIZE, VRAM_SIZE};

verus! {

proof fn lemma_words_cleared<M: Memory, A>(
    f: spec_fn(M::State) -> A,
    s: M::State,
    base: u32,
    words: int,
)
    requires
        kept::<M, A>(f),
    ensures
        f(words_cleared::<M>(s, base, words)) == f(s),
    decreases words,
{
    if words > 0 {
        lemma_words_cleared::<M, A>(f, s, base, words - 1);
    }
}

proof fn lemma_region_cleared<M: Memory, A>(
    f: spec_fn(M::State) -> A,
    s: M::State,
    selected: bool,
    base: u32,
    size: int,
)
    requires
        kept::<M, A>(f),
    ensures
        f(region_cleared::<M>(s, selected, base, size)) == f(s),
{
    lemma_words_cleared::<M, A>(f, s, base, size / 4);
}

proof fn lemma_ram_reset<M: Memory, A>(f: spec_fn(M::State) -> A, s: M::State, flags: u8)
    requires
        kept::<M, A>(f),
    ensures
        f(ram_reset::<M>(s, flags)) == f(s),
{
    let s1 = region_cleared::<M>(s, flags & 0x01 != 0, base::EWRAM, EWRAM_SIZE as int);
    let s2 = region_cleared::<M>(s1, flags & 0x02 != 0, base::IWRAM, IWRAM_SIZE - 0x200);
    let s3 = region_cleared::<M>(s2, flags & 0x04 != 0, base::PALETTE, PALETTE_SIZE as int);
    let s4 = region_cleared::<M>(s3, flags & 0x08 != 0, base::VRAM, VRAM_SIZE as int);
    lemma_region_cleared::<M, A>(f, s, flags & 0x01 != 0, base::EWRAM, EWRAM_SIZE as int);
    lemma_region_cleared::<M, A>(f, s1, flags & 0x02 != 0, base::IWRAM, IWRAM_SIZE - 0x200);
    lemma_region_cleared::<M, A>(f, s2, flags & 0x04 != 0, base::PALETTE, PALETTE_SIZE as int);
    lemma_region_cleared::<M, A>(f, s3, flags & 0x08 != 0, base::VRAM, VRAM_SIZE as int);
    lemma_region_cleared::<M, A>(f, s4, flags & 0x10 != 0, base::OAM, OAM_SIZE as int);
}

proof fn lemma_words_set<M: Memory, A>(
    f: spec_fn(M::State) -> A,
    s: M::State,
    src: u32,
    dst: u32,
    fill: Option<u32>,
    count: int,
)
    requires
        kept::<M, A>(f),
    ensures
        f(words_set::<M>(s, src, dst, fill, count)) == f(s),
    decreases count,
{
    if count > 0 {
        lemma_words_set::<M, A>(f, s, src, dst, fill, count - 1);
    }
}

proof fn lemma_halves_set<M: Memory, A>(
    f: spec_fn(M::State) -> A,
    s: M::State,
    src: u32,
    dst: u32,
    fill: Option<u16>,
    count: int,
)
    requires
        kept::<M, A>(f),
    ensures
        f(halves_set::<M>(s, src, dst, fill, count)) == f(s),
    decreases count,
{
    if count > 0 {
        lemma_halves_set::<M, A>(f, s, src, dst, fill, count - 1);
    }
}

proof fn lemma_word_set<M: Memory, A>(
    f: spec_fn(M::State) -> A,
    s: M::State,
    src: u32,
    dst: u32,
    fill: bool,
    count: int,
)
    requires
        kept::<M, A>(f),
    ensures
        f(word_set_memory::<M>(s, src, dst, fill, count)) == f(s),
{
    let from = src & !3u32;
    let value = if fill {
        Some(M::value32(s, from))
    } else {
        None
    };
    lemma_words_set::<M, A>(f, M::loaded32(s, from), from, dst & !3u32, value, count);
}

proof fn lemma_cpu_set<M: Memory, A>(
    f: spec_fn(M::State) -> A,
    s: M::State,
    src: u32,
    dst: u32,
    control: u32,
)
    requires
        kept::<M, A>(f),
    ensures
        f(cpu_set_memory::<M>(s, src, dst, control)) == f(s),
{
    let count = (control & 0x1F_FFFF) as int;
    let fill = control & (1u32 << 24) != 0;
    if control & (1u32 << 26) != 0 {
        lemma_word_set::<M, A>(f, s, src, dst, fill, count);
    } else {
        let from = src & !1u32;
        let value = if fill {
            Some(M::value16(s, from))
        } else {
            None
        };
        lemma_halves_set::<M, A>(f, M::loaded16(s, from), from, dst & !1u32, value, count);
    }
}

proof fn lemma_cpu_fast_set<M: Memory, A>(
    f: spec_fn(M::State) -> A,
    s: M::State,
    src: u32,
    dst: u32,
    control: u32,
)
    requires
        kept::<M, A>(f),
    ensures
        f(cpu_fast_set_memory::<M>(s, src, dst, control)) == f(s),
{
    let blocks = ((control & 0x1F_FFFF) as int + 7) / 8;
    lemma_word_set::<M, A>(f, s, src, dst, control & (1u32 << 24) != 0, 8 * blocks);
}

proof fn lemma_bg_affine<M: Memory, A>(
    f: spec_fn(M::State) -> A,
    s: M::State,
    src: u32,
    dst: u32,
    count: int,
)
    requires
        kept::<M, A>(f),
    ensures
        f(bg_affine_memory::<M>(s, src, dst, count)) == f(s),
    decreases count,
{
    if count > 0 {
        let (p, read) = bg_source::<M>(s, src);
        assert(f(read) == f(s));
        assert(f(bg_written::<M>(read, p, dst)) == f(read));
        lemma_bg_affine::<M, A>(
            f,
            bg_written::<M>(read, p, dst),
            src.wrapping_add(20),
            dst.wrapping_add(16),
            count - 1,
        );
    }
}

proof fn lemma_obj_affine<M: Memory, A>(
    f: spec_fn(M::State) -> A,
    s: M::State,
    src: u32,
    dst: u32,
    count: int,
    stride: u32,
)
    requires
        kept::<M, A>(f),
    ensures
        f(obj_affine_memory::<M>(s, src, dst, count, stride)) == f(s),
    decreases count,
{
    if count > 0 {
        let s1 = M::loaded16(s, src);
        let s2 = M::loaded16(s1, src.wrapping_add(2));
        let s3 = M::loaded16(s2, src.wrapping_add(4));
        let m = affine(
            (M::value16(s, src) as i16) as i32,
            (M::value16(s1, src.wrapping_add(2)) as i16) as i32,
            M::value16(s2, src.wrapping_add(4)) >> 8,
        );
        assert(f(obj_written::<M>(s3, m, dst, stride)) == f(s3));
        lemma_obj_affine::<M, A>(
            f,
            obj_written::<M>(s3, m, dst, stride),
            src.wrapping_add(8),
            dst.wrapping_add(stride).wrapping_add(stride).wrapping_add(stride).wrapping_add(
                stride,
            ),
            count - 1,
            stride,
        );
    }
}

proof fn lemma_bytes_written<M: Memory, A>(
    f: spec_fn(M::State) -> A,
    s: M::State,
    dst: u32,
    out: Seq<u8>,
    upto: int,
)
    requires
        kept::<M, A>(f),
    ensures
        f(bytes_written::<M>(s, dst, out, upto)) == f(s),
        f(halves_written::<M>(s, dst, out, upto)) == f(s),
    decreases upto,
{
    if upto > 0 {
        lemma_bytes_written::<M, A>(f, s, dst, out, upto - 1);
    }
}

proof fn lemma_written_out<M: Memory, A>(
    f: spec_fn(M::State) -> A,
    s: M::State,
    dst: u32,
    out: Seq<u8>,
    vram: bool,
)
    requires
        kept::<M, A>(f),
    ensures
        f(written_out::<M>(s, dst, out, vram)) == f(s),
{
    lemma_bytes_written::<M, A>(f, s, dst, out, (out.len() as int + 1) / 2);
    lemma_bytes_written::<M, A>(f, s, dst, out, out.len() as int);
}

proof fn lemma_lz77_run<M: Memory, A>(
    f: spec_fn(M::State) -> A,
    st: Unpacking<M::State>,
    size: int,
    flags: u8,
    left: int,
)
    requires
        kept::<M, A>(f),
    ensures
        f(lz77_run::<M>(st, size, flags, left).mem) == f(st.mem),
    decreases
            missing(st.out, size),
            if left <= 0 {
                1int
            } else {
                0
            },
{
    if st.out.len() >= size {
    } else if left <= 0 {
        let next = Unpacking::<M::State> {
            mem: M::loaded8(st.mem, st.src),
            src: st.src.wrapping_add(1),
            out: st.out,
        };
        lemma_lz77_run::<M, A>(f, next, size, M::value8(st.mem, st.src), 8);
    } else {
        let reference = (flags >> ((left - 1) as u8)) & 1 != 0;
        let next = lz77_token::<M>(st, reference);
        assert(f(next.mem) == f(st.mem));
        if next.out.len() > st.out.len() {
            lemma_lz77_run::<M, A>(f, next, size, flags, left - 1);
        }
    }
}

proof fn lemma_lz77<M: Memory, A>(
    f: spec_fn(M::State) -> A,
    s: M::State,
    src: u32,
    dst: u32,
    vram: bool,
)
    requires
        kept::<M, A>(f),
    ensures
        f(lz77_uncompressed::<M>(s, src, dst, vram)) == f(s),
{
    let header = M::value32(s, src);
    let s1 = M::loaded32(s, src);
    let start = Unpacking::<M::State> { mem: s1, src: src.wrapping_add(4), out: Seq::empty() };
    let size = (header >> 8) as int;
    lemma_lz77_run::<M, A>(f, start, size, 0, 0);
    let done = lz77_run::<M>(start, size, 0, 0);
    lemma_written_out::<M, A>(f, done.mem, dst, cut(done.out, size), vram);
}

proof fn lemma_literals<M: Memory, A>(
    f: spec_fn(M::State) -> A,
    st: Unpacking<M::State>,
    count: int,
)
    requires
        kept::<M, A>(f),
    ensures
        f(literals::<M>(st, count).mem) == f(st.mem),
    decreases count,
{
    if count > 0 {
        lemma_literals::<M, A>(f, st, count - 1);
    }
}

proof fn lemma_rl_run<M: Memory, A>(
    f: spec_fn(M::State) -> A,
    st: Unpacking<M::State>,
    size: int,
)
    requires
        kept::<M, A>(f),
    ensures
        f(rl_run::<M>(st, size).mem) == f(st.mem),
    decreases missing(st.out, size),
{
    if st.out.len() < size {
            let flag = M::value8(st.mem, st.src);
        let s1 = M::loaded8(st.mem, st.src);
        let second = st.src.wrapping_add(1);
        let rest = Unpacking::<M::State> { mem: s1, src: second, out: st.out };
        lemma_literals::<M, A>(f, rest, (flag & 0x7F) + 1);
        let next = rl_token::<M>(st);
        assert(f(next.mem) == f(st.mem));
        if next.out.len() > st.out.len() {
            lemma_rl_run::<M, A>(f, next, size);
        }
    }
}

proof fn lemma_rl<M: Memory, A>(
    f: spec_fn(M::State) -> A,
    s: M::State,
    src: u32,
    dst: u32,
    vram: bool,
)
    requires
        kept::<M, A>(f),
    ensures
        f(rl_uncompressed::<M>(s, src, dst, vram)) == f(s),
{
    let header = M::value32(s, src);
    let s1 = M::loaded32(s, src);
    let size = (header >> 8) as int;
    let start = Unpacking::<M::State> { mem: s1, src: src.wrapping_add(4), out: Seq::empty() };
    lemma_rl_run::<M, A>(f, start, size);
    let done = rl_run::<M>(start, size);
    lemma_written_out::<M, A>(f, done.mem, dst, done.out.take(size), vram);
}

proof fn lemma_units<M: Memory, A>(
    f: spec_fn(M::State) -> A,
    st: Widening<M::State>,
    w: Widths,
    byte: u32,
    upto: int,
)
    requires
        kept::<M, A>(f),
    ensures
        f(units_added::<M>(st, w, byte, upto).mem) == f(st.mem),
    decreases upto,
{
    if upto > 0 {
        lemma_units::<M, A>(f, st, w, byte, upto - 1);
    }
}

proof fn lemma_bytes_widened<M: Memory, A>(
    f: spec_fn(M::State) -> A,
    st: Widening<M::State>,
    w: Widths,
    src: u32,
    upto: int,
)
    requires
        kept::<M, A>(f),
    ensures
        f(bytes_widened::<M>(st, w, src, upto).mem) == f(st.mem),
    decreases upto,
{
    if upto > 0 {
        lemma_bytes_widened::<M, A>(f, st, w, src, upto - 1);
        let before = bytes_widened::<M>(st, w, src, upto - 1);
        let address = src.wrapping_add((upto - 1) as u32);
        let byte = M::value8(before.mem, address) as u32;
        lemma_units::<M, A>(
            f,
            Widening { mem: M::loaded8(before.mem, address), ..before },
            w,
            byte,
            8int / (w.src_bits as int),
        );
    }
}

proof fn lemma_bit_unpack<M: Memory, A>(
    f: spec_fn(M::State) -> A,
    s: M::State,
    src: u32,
    dst: u32,
    info: u32,
)
    requires
        kept::<M, A>(f),
    ensures
        f(bit_unpacked::<M>(s, src, dst, info)) == f(s),
{
    let length = M::value16(s, info) as int;
    let s1 = M::loaded16(s, info);
    let src_bits = M::value8(s1, info.wrapping_add(2)) as u32;
    let s2 = M::loaded8(s1, info.wrapping_add(2));
    let dst_bits = M::value8(s2, info.wrapping_add(3)) as u32;
    let s3 = M::loaded8(s2, info.wrapping_add(3));
    let offset_word = M::value32(s3, info.wrapping_add(4));
    let s4 = M::loaded32(s3, info.wrapping_add(4));
    let w = Widths {
        src_bits,
        dst_bits,
        offset: offset_word & 0x7FFF_FFFF,
        offset_zeros: offset_word & (1u32 << 31) != 0,
    };
    lemma_bytes_widened::<M, A>(
        f,
        Widening { mem: s4, dst, word: 0, bits: 0 },
        w,
        src,
        length,
    );
}

/// A BIOS call keeps what every access to memory keeps.
pub proof fn law_service_keeps_what_accesses_keep<M: Memory, A>(
    f: spec_fn(M::State) -> A,
    number: u8,
    cpu: CpuView,
    s: M::State,
)
    requires
        kept::<M, A>(f),
    ensures
        f(serviced::<M>(number, cpu, s).1) == f(s),
{
    reveal(serviced);
    let r0 = cpu.regs.gpr[0];
    let r1 = cpu.regs.gpr[1];
    let r2 = cpu.regs.gpr[2];
    let r3 = cpu.regs.gpr[3];
    lemma_ram_reset::<M, A>(f, s, r0 as u8);
    lemma_cpu_set::<M, A>(f, s, r0, r1, r2);
    lemma_cpu_fast_set::<M, A>(f, s, r0, r1, r2);
    lemma_lz77::<M, A>(f, s, r0, r1, false);
    lemma_lz77::<M, A>(f, s, r0, r1, true);
    lemma_rl::<M, A>(f, s, r0, r1, false);
    lemma_rl::<M, A>(f, s, r0, r1, true);
    lemma_bit_unpack::<M, A>(f, s, r0, r1, r2);
    lemma_bg_affine::<M, A>(f, s, r0, r1, r2 as int);
    lemma_obj_affine::<M, A>(f, s, r0, r1, r2 as int, r3);
}

} // verus!
