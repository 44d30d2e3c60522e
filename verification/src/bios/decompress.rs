//! The decompression calls: LZ77, run-length and bit unpacking.

use vstd::prelude::*;

use crate::memory::Memory;

verus! {

broadcast use crate::bits::group_mask_bounds;

/// Where a decompressor is: the memory it reads, the next source address and
/// what it has produced.
pub struct Unpacking<S> {
    /// The memory.
    pub mem: S,
    /// The next source address.
    pub src: u32,
    /// The output so far.
    pub out: Seq<u8>,
}

/// Bytes still missing from `size`.
pub open spec fn missing(out: Seq<u8>, size: int) -> int {
    if out.len() < size {
        size - out.len()
    } else {
        0
    }
}

/// `out` after `count` bytes are copied from `distance` back, each of which
/// may be one that the copy itself has written. Bytes from before the start
/// read as zero.
pub open spec fn back_copied(out: Seq<u8>, distance: int, count: int) -> Seq<u8>
    decreases count,
{
    if count <= 0 {
        out
    } else {
        let before = back_copied(out, distance, count - 1);
        before.push(
            if distance <= before.len() {
                before[before.len() - distance]
            } else {
                0
            },
        )
    }
}

/// A back copy adds exactly as many bytes as it says.
pub(crate) proof fn lemma_back_copied_len(out: Seq<u8>, distance: int, count: int)
    requires
        0 <= count,
    ensures
        back_copied(out, distance, count).len() == out.len() + count,
    decreases count,
{
    if count > 0 {
        lemma_back_copied_len(out, distance, count - 1);
    }
}

/// The length that a back-reference starting with `b0` copies.
pub open spec fn reference_length(b0: u8) -> int {
    (b0 >> 4) + 3
}

/// How far back a reference reaches.
pub open spec fn reference_distance(b0: u8, b1: u8) -> int {
    (((b0 & 0xF) as int) * 256 + b1) + 1
}

/// The state after one LZ77 token: a literal byte, or a 2-byte
/// back-reference `LLLL DDDD DDDD DDDD` with length `L + 3` and distance
/// `D + 1`.
pub open spec fn lz77_token<M: Memory>(st: Unpacking<M::State>, reference: bool) -> Unpacking<
    M::State,
> {
    let b0 = M::value8(st.mem, st.src);
    let s1 = M::loaded8(st.mem, st.src);
    let second = st.src.wrapping_add(1);
    if !reference {
        Unpacking { mem: s1, src: second, out: st.out.push(b0) }
    } else {
        let b1 = M::value8(s1, second);
        Unpacking {
            mem: M::loaded8(s1, second),
            src: st.src.wrapping_add(2),
            out: back_copied(st.out, reference_distance(b0, b1), reference_length(b0)),
        }
    }
}

/// The state when at least `size` bytes have been produced, with `left`
/// tokens of flag byte `flags` still to come. Each flag byte marks the next
/// eight tokens, most significant bit first.
pub open spec fn lz77_run<M: Memory>(
    st: Unpacking<M::State>,
    size: int,
    flags: u8,
    left: int,
) -> Unpacking<M::State>
    decreases
            missing(st.out, size),
            if left <= 0 {
                1int
            } else {
                0
            },
{
    if st.out.len() >= size {
        st
    } else if left <= 0 {
        lz77_run::<M>(
            Unpacking {
                mem: M::loaded8(st.mem, st.src),
                src: st.src.wrapping_add(1),
                out: st.out,
            },
            size,
            M::value8(st.mem, st.src),
            8,
        )
    } else {
        let next = lz77_token::<M>(st, (flags >> ((left - 1) as u8)) & 1 != 0);
        if next.out.len() > st.out.len() {
            lz77_run::<M>(next, size, flags, left - 1)
        } else {
            next
        }
    }
}

/// Memory after `out` is written to `dst` byte by byte, up to byte `upto`.
pub open spec fn bytes_written<M: Memory>(
    s: M::State,
    dst: u32,
    out: Seq<u8>,
    upto: int,
) -> M::State
    decreases upto,
{
    if upto <= 0 {
        s
    } else {
        M::stored8(
            bytes_written::<M>(s, dst, out, upto - 1),
            dst.wrapping_add((upto - 1) as u32),
            out[upto - 1],
        )
    }
}

/// Halfword `i` of `out`; a last lone byte is padded with zero.
pub open spec fn output_half(out: Seq<u8>, i: int) -> u16 {
    (out[2 * i] as u16) | (((if 2 * i + 1 < out.len() {
        out[2 * i + 1]
    } else {
        0
    }) as u16) << 8)
}

/// Memory after `out` is written to `dst` by halfwords, up to halfword
/// `upto`.
pub open spec fn halves_written<M: Memory>(
    s: M::State,
    dst: u32,
    out: Seq<u8>,
    upto: int,
) -> M::State
    decreases upto,
{
    if upto <= 0 {
        s
    } else {
        M::stored16(
            halves_written::<M>(s, dst, out, upto - 1),
            dst.wrapping_add((2 * (upto - 1)) as u32),
            output_half(out, upto - 1),
        )
    }
}

/// Memory after decompressed bytes are written to `dst`, as halfwords for
/// the VRAM variants because VRAM ignores byte writes.
pub open spec fn written_out<M: Memory>(
    s: M::State,
    dst: u32,
    out: Seq<u8>,
    vram: bool,
) -> M::State {
    if vram {
        halves_written::<M>(s, dst, out, (out.len() as int + 1) / 2)
    } else {
        bytes_written::<M>(s, dst, out, out.len() as int)
    }
}

/// `out` without what exceeds `size` bytes.
pub open spec fn cut(out: Seq<u8>, size: int) -> Seq<u8> {
    if out.len() > size {
        out.take(size)
    } else {
        out
    }
}

/// Memory after `LZ77UnCompWram`/`LZ77UnCompVram`. The header word holds the
/// type (`0x10`) in its low byte and the decompressed size in the upper 24
/// bits; bytes that the last reference gives beyond it are dropped.
pub open spec fn lz77_uncompressed<M: Memory>(
    s: M::State,
    src: u32,
    dst: u32,
    vram: bool,
) -> M::State {
    let header = M::value32(s, src);
    let s1 = M::loaded32(s, src);
    if header & 0xFF != 0x10 {
        s1
    } else {
        let start = Unpacking { mem: s1, src: src.wrapping_add(4), out: Seq::empty() };
        let size = (header >> 8) as int;
        let done = lz77_run::<M>(start, size, 0, 0);
        written_out::<M>(done.mem, dst, cut(done.out, size), vram)
    }
}

/// Copies `count` bytes from `distance` back.
fn back_copy(out: &mut Vec<u8>, distance: usize, count: usize)
    requires
        distance >= 1,
    ensures
        final(out)@ == back_copied(old(out)@, distance as int, count as int),
{
    let ghost before = out@;
    for i in 0..count
        invariant
            distance >= 1,
            out@ == back_copied(before, distance as int, i as int),
    {
        let len: usize = out.len();
        let byte: u8 = if distance <= len {
            out[len - distance]
        } else {
            0
        };
        out.push(byte);
    }
}

/// `LZ77UnCompWram`/`LZ77UnCompVram`: decompress the GBA's LZ77 format.
///
/// The header word holds the type (`0x10`) in its low byte and the
/// decompressed size in the upper 24 bits. Each block starts with a flag
/// byte whose bits (MSB first) mark the next eight tokens as literal
/// bytes (0) or 2-byte back-references (1): `LLLL DDDD DDDD DDDD` with
/// length `L + 3` and distance `D + 1`. The VRAM variant writes halfwords
/// because VRAM ignores byte writes.
pub(crate) fn lz77_uncomp<M: Memory>(mem: &mut M, src: u32, dst: u32, vram: bool)
    requires
        old(mem).wf(),
    ensures
        final(mem).wf(),
        final(mem).state() == lz77_uncompressed::<M>(old(mem).state(), src, dst, vram),
{
    let header: u32 = mem.read32(src);
    if header & 0xFF != 0x10 {
        return;
    }
    let size: usize = (header >> 8) as usize;
    let mut src: u32 = src.wrapping_add(4);
    let mut out: Vec<u8> = Vec::new();
    let mut flags: u8 = 0;
    let mut left: u8 = 0;
    let ghost start = Unpacking { mem: mem.state(), src, out: Seq::<u8>::empty() };
    let ghost done = lz77_run::<M>(start, size as int, 0, 0);
    assert(out@ =~= start.out);
    while out.len() < size
        invariant
            mem.wf(),
            left <= 8,
            done == lz77_run::<M>(
                Unpacking { mem: mem.state(), src, out: out@ },
                size as int,
                flags,
                left as int,
            ),
        decreases
                missing(out@, size as int),
                if left == 0 {
                    1int
                } else {
                    0
                },
    {
        if left == 0 {
            flags = mem.read8(src);
            src = src.wrapping_add(1);
            left = 8;
        } else {
            left = left - 1;
            if (flags >> left) & 1 == 0 {
                out.push(mem.read8(src));
                src = src.wrapping_add(1);
            } else {
                let b0: u8 = mem.read8(src);
                let b1: u8 = mem.read8(src.wrapping_add(1));
                src = src.wrapping_add(2);
                proof {
                    crate::bits::high_field_facts(b0, 0);
                    lemma_back_copied_len(
                        out@,
                        reference_distance(b0, b1),
                        reference_length(b0),
                    );
                }
                let length: usize = (b0 >> 4) as usize + 3;
                let distance: usize = ((b0 & 0xF) as usize * 256 + b1 as usize) + 1;
                back_copy(&mut out, distance, length);
            }
        }
    }
    out.truncate(size);
    assert(out@ =~= cut(done.out, size as int));
    write_out(mem, dst, out.as_slice(), vram);
}

/// Writes decompressed bytes to `dst`, as halfwords when `vram` is set
/// because VRAM ignores byte writes.
fn write_out<M: Memory>(mem: &mut M, dst: u32, out: &[u8], vram: bool)
    requires
        old(mem).wf(),
    ensures
        final(mem).wf(),
        final(mem).state() == written_out::<M>(old(mem).state(), dst, out@, vram),
{
    let ghost s0 = mem.state();
    if vram {
        let halves: usize = out.len() / 2 + out.len() % 2;
        for i in 0..halves
            invariant
                mem.wf(),
                halves == (out@.len() + 1) / 2,
                out@.len() == out.len(),
                mem.state() == halves_written::<M>(s0, dst, out@, i as int),
        {
            let lo: u8 = out[2 * i];
            let hi: u8 = if 2 * i + 1 < out.len() {
                out[2 * i + 1]
            } else {
                0
            };
            let half: u16 = (lo as u16) | ((hi as u16) << 8);
            mem.write16(dst.wrapping_add((2 * i) as u32), half);
        }
    } else {
        for i in 0..out.len()
            invariant
                mem.wf(),
                mem.state() == bytes_written::<M>(s0, dst, out@, i as int),
        {
            mem.write8(dst.wrapping_add(i as u32), out[i]);
        }
    }
}

/// The state after `count` literal bytes.
pub open spec fn literals<M: Memory>(st: Unpacking<M::State>, count: int) -> Unpacking<M::State>
    decreases count,
{
    if count <= 0 {
        st
    } else {
        let before = literals::<M>(st, count - 1);
        Unpacking {
            mem: M::loaded8(before.mem, before.src),
            src: before.src.wrapping_add(1),
            out: before.out.push(M::value8(before.mem, before.src)),
        }
    }
}

/// Literals add exactly as many bytes as they say.
proof fn lemma_literals_len<M: Memory>(st: Unpacking<M::State>, count: int)
    requires
        0 <= count,
    ensures
        literals::<M>(st, count).out.len() == st.out.len() + count,
    decreases count,
{
    if count > 0 {
        lemma_literals_len::<M>(st, count - 1);
    }
}

/// The state after one run-length token: the next byte `(flag & 0x7F) + 3`
/// times (bit 7 set), or the next `(flag & 0x7F) + 1` bytes literally.
pub open spec fn rl_token<M: Memory>(st: Unpacking<M::State>) -> Unpacking<M::State> {
    let flag = M::value8(st.mem, st.src);
    let s1 = M::loaded8(st.mem, st.src);
    let second = st.src.wrapping_add(1);
    if flag & 0x80 != 0 {
        let byte = M::value8(s1, second);
        Unpacking {
            mem: M::loaded8(s1, second),
            src: st.src.wrapping_add(2),
            out: st.out + Seq::new(((flag & 0x7F) + 3) as nat, |i: int| byte),
        }
    } else {
        literals::<M>(Unpacking { mem: s1, src: second, out: st.out }, (flag & 0x7F) + 1)
    }
}

/// The state when at least `size` bytes have been produced.
pub open spec fn rl_run<M: Memory>(st: Unpacking<M::State>, size: int) -> Unpacking<M::State>
    decreases missing(st.out, size),
{
    if st.out.len() >= size {
        st
    } else {
        let next = rl_token::<M>(st);
        if next.out.len() > st.out.len() {
            rl_run::<M>(next, size)
        } else {
            next
        }
    }
}

/// Memory after `RLUnCompWram`/`RLUnCompVram`; bytes beyond the size in the
/// header are dropped.
pub open spec fn rl_uncompressed<M: Memory>(
    s: M::State,
    src: u32,
    dst: u32,
    vram: bool,
) -> M::State {
    let header = M::value32(s, src);
    let s1 = M::loaded32(s, src);
    let size = (header >> 8) as int;
    if header & 0xF0 != 0x30 {
        s1
    } else {
        let start = Unpacking { mem: s1, src: src.wrapping_add(4), out: Seq::empty() };
        let done = rl_run::<M>(start, size);
        written_out::<M>(done.mem, dst, done.out.take(size), vram)
    }
}

/// `RLUnCompWram`/`RLUnCompVram`: run-length decoding. Each flag byte
/// either repeats the next byte `(flag & 0x7F) + 3` times (bit 7 set) or
/// copies the next `(flag & 0x7F) + 1` bytes literally.
pub(crate) fn rl_uncomp<M: Memory>(mem: &mut M, src: u32, dst: u32, vram: bool)
    requires
        old(mem).wf(),
    ensures
        final(mem).wf(),
        final(mem).state() == rl_uncompressed::<M>(old(mem).state(), src, dst, vram),
{
    let header: u32 = mem.read32(src);
    if header & 0xF0 != 0x30 {
        return;
    }
    let size: usize = (header >> 8) as usize;
    let mut src: u32 = src.wrapping_add(4);
    let mut out: Vec<u8> = Vec::new();
    let ghost start = Unpacking { mem: mem.state(), src, out: Seq::<u8>::empty() };
    let ghost done = rl_run::<M>(start, size as int);
    assert(out@ =~= start.out);
    while out.len() < size
        invariant
            mem.wf(),
            done == rl_run::<M>(
                Unpacking { mem: mem.state(), src, out: out@ },
                size as int,
            ),
        ensures
            out@.len() >= size,
        decreases missing(out@, size as int),
    {
        let ghost before = Unpacking { mem: mem.state(), src, out: out@ };
        let flag: u8 = mem.read8(src);
        src = src.wrapping_add(1);
        if flag & 0x80 != 0 {
            let byte: u8 = mem.read8(src);
            src = src.wrapping_add(1);
            let count: usize = (flag & 0x7F) as usize + 3;
            let ghost prefix = out@;
            for i in 0..count
                invariant
                    out@ =~= prefix + Seq::new(i as nat, |k: int| byte),
            {
                out.push(byte);
            }
        } else {
            let count: usize = (flag & 0x7F) as usize + 1;
            let ghost from = Unpacking { mem: mem.state(), src, out: out@ };
            for i in 0..count
                invariant
                    mem.wf(),
                    (Unpacking { mem: mem.state(), src, out: out@ }) == literals::<M>(
                        from,
                        i as int,
                    ),
            {
                out.push(mem.read8(src));
                src = src.wrapping_add(1);
            }
            proof {
                lemma_literals_len::<M>(from, count as int);
            }
        }
        proof {
            let after = rl_token::<M>(before);
            assert(out@ =~= after.out);
        }
    }
    out.truncate(size);
    write_out(mem, dst, out.as_slice(), vram);
}

/// Where a bit unpacking is.
pub struct Widening<S> {
    /// The memory.
    pub mem: S,
    /// The next destination address.
    pub dst: u32,
    /// The output word being filled.
    pub word: u32,
    /// How many of its bits are filled.
    pub bits: u32,
}

/// How a bit unpacking widens its units.
pub struct Widths {
    /// Bits of a source unit.
    pub src_bits: u32,
    /// Bits of a destination unit.
    pub dst_bits: u32,
    /// What is added to a unit.
    pub offset: u32,
    /// Whether it is added to zero units too.
    pub offset_zeros: bool,
}

/// The widened unit `chunk` of source byte `byte`.
pub open spec fn widened(w: Widths, byte: u32, chunk: int) -> u32 {
    let value = (byte >> ((chunk * w.src_bits) as u32)) & (((1u32 << w.src_bits) - 1) as u32);
    if value != 0 || w.offset_zeros {
        value.wrapping_add(w.offset)
    } else {
        value
    }
}

/// The state after one unit: it joins the output word, which is written when
/// full.
pub open spec fn unit_added<M: Memory>(st: Widening<M::State>, w: Widths, value: u32) -> Widening<
    M::State,
> {
    let word = st.word | (value << st.bits);
    if st.bits + w.dst_bits >= 32 {
        Widening {
            mem: M::stored32(st.mem, st.dst, word),
            dst: st.dst.wrapping_add(4),
            word: 0,
            bits: 0,
        }
    } else {
        Widening { word, bits: (st.bits + w.dst_bits) as u32, ..st }
    }
}

/// The state after the units of one byte up to `upto`.
pub open spec fn units_added<M: Memory>(
    st: Widening<M::State>,
    w: Widths,
    byte: u32,
    upto: int,
) -> Widening<M::State>
    decreases upto,
{
    if upto <= 0 {
        st
    } else {
        unit_added::<M>(
            units_added::<M>(st, w, byte, upto - 1),
            w,
            widened(w, byte, upto - 1),
        )
    }
}

/// The state after `upto` source bytes.
pub open spec fn bytes_widened<M: Memory>(
    st: Widening<M::State>,
    w: Widths,
    src: u32,
    upto: int,
) -> Widening<M::State>
    decreases upto,
{
    if upto <= 0 {
        st
    } else {
        let before = bytes_widened::<M>(st, w, src, upto - 1);
        let address = src.wrapping_add((upto - 1) as u32);
        let byte = M::value8(before.mem, address) as u32;
        units_added::<M>(
            Widening { mem: M::loaded8(before.mem, address), ..before },
            w,
            byte,
            8int / (w.src_bits as int),
        )
    }
}

/// Whether `BitUnPack` supports the widths.
pub open spec fn supported_widths(src_bits: u32, dst_bits: u32) -> bool {
    &&& src_bits == 1 || src_bits == 2 || src_bits == 4 || src_bits == 8
    &&& dst_bits == 1 || dst_bits == 2 || dst_bits == 4 || dst_bits == 8 || dst_bits == 16
        || dst_bits == 32
}

/// Memory after `BitUnPack` with parameters at `info`: length, source and
/// destination widths, and the offset word.
pub open spec fn bit_unpacked<M: Memory>(
    s: M::State,
    src: u32,
    dst: u32,
    info: u32,
) -> M::State {
    let length = M::value16(s, info) as int;
    let s1 = M::loaded16(s, info);
    let src_bits = M::value8(s1, info.wrapping_add(2)) as u32;
    let s2 = M::loaded8(s1, info.wrapping_add(2));
    let dst_bits = M::value8(s2, info.wrapping_add(3)) as u32;
    let s3 = M::loaded8(s2, info.wrapping_add(3));
    let offset_word = M::value32(s3, info.wrapping_add(4));
    let s4 = M::loaded32(s3, info.wrapping_add(4));
    let w = Widths {
        src_bits,
        dst_bits,
        offset: offset_word & 0x7FFF_FFFF,
        offset_zeros: offset_word & (1u32 << 31) != 0,
    };
    if !supported_widths(src_bits, dst_bits) {
        s4
    } else {
        bytes_widened::<M>(Widening { mem: s4, dst, word: 0, bits: 0 }, w, src, length).mem
    }
}

proof fn lemma_unit_mask(n: u32)
    requires
        n <= 8,
    ensures
        1u32 << n >= 1,
{
    crate::bits::small_facts(0, 0, n, 0);
}

/// `BitUnPack`: widens `src_bits`-wide units into `dst_bits`-wide units,
/// adding `offset` to each (non-zero, unless bit 31 of the offset word
/// is set) value, and writes the result as words.
pub(crate) fn bit_unpack<M: Memory>(mem: &mut M, src: u32, dst: u32, info: u32)
    requires
        old(mem).wf(),
    ensures
        final(mem).wf(),
        final(mem).state() == bit_unpacked::<M>(old(mem).state(), src, dst, info),
{
    let length: u32 = mem.read16(info) as u32;
    let src_bits: u32 = mem.read8(info.wrapping_add(2)) as u32;
    let dst_bits: u32 = mem.read8(info.wrapping_add(3)) as u32;
    let offset_word: u32 = mem.read32(info.wrapping_add(4));
    let offset: u32 = offset_word & 0x7FFF_FFFF;
    let offset_zeros = offset_word & (1u32 << 31) != 0;
    if !matches!(src_bits, 1 | 2 | 4 | 8) || !matches!(dst_bits, 1 | 2 | 4 | 8 | 16 | 32) {
        return;
    }
    let ghost w = Widths { src_bits, dst_bits, offset, offset_zeros };
    let ghost start = Widening { mem: mem.state(), dst, word: 0u32, bits: 0u32 };

    let mut out_word: u32 = 0;
    let mut out_bits: u32 = 0;
    let mut dst: u32 = dst;
    let per_byte: u32 = 8 / src_bits;
    for i in 0..length
        invariant
            mem.wf(),
            supported_widths(src_bits, dst_bits),
            per_byte == 8u32 / src_bits,
            w == (Widths { src_bits, dst_bits, offset, offset_zeros }),
            out_bits < 32,
            (Widening { mem: mem.state(), dst, word: out_word, bits: out_bits })
                == bytes_widened::<M>(start, w, src, i as int),
    {
        let byte: u32 = mem.read8(src.wrapping_add(i)) as u32;
        let ghost from = Widening { mem: mem.state(), dst, word: out_word, bits: out_bits };
        for chunk in 0..per_byte
            invariant
                mem.wf(),
                supported_widths(src_bits, dst_bits),
                per_byte == 8u32 / src_bits,
                w == (Widths { src_bits, dst_bits, offset, offset_zeros }),
                out_bits < 32,
                (Widening { mem: mem.state(), dst, word: out_word, bits: out_bits })
                    == units_added::<M>(from, w, byte, chunk as int),
        {
            proof {
                lemma_unit_mask(src_bits);
                assert(chunk * src_bits < 8) by (nonlinear_arith)
                    requires
                        chunk < 8u32 / src_bits,
                        src_bits == 1 || src_bits == 2 || src_bits == 4 || src_bits == 8,
                ;
            }
            let mut value: u32 = (byte >> (chunk * src_bits)) & ((1u32 << src_bits) - 1);
            if value != 0 || offset_zeros {
                value = value.wrapping_add(offset);
            }
            out_word = out_word | (value << out_bits);
            out_bits = out_bits + dst_bits;
            if out_bits >= 32 {
                mem.write32(dst, out_word);
                dst = dst.wrapping_add(4);
                out_word = 0;
                out_bits = 0;
            }
        }
    }
}

} // verus!
