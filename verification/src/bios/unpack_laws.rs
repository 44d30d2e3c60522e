//! What the decompression calls give back, said of how data is packed.

use vstd::arithmetic::power2::pow2;
use vstd::prelude::*;

use crate::bios::decompress::{
    back_copied, literals, lz77_run, lz77_token, output_half, rl_token, unit_added, widened,
    Unpacking, Widening, Widths,
};
use crate::memory::Memory;

verus! {

broadcast use crate::bits::group_mask_bounds;

/// Whether `after` is `before` and `count` bytes more, each equal to the one
/// `distance` before it; what would be from before the start is zero.
pub open spec fn repeats(before: Seq<u8>, distance: int, count: int, after: Seq<u8>) -> bool {
    let n = before.len() as int;
    &&& after.len() == n + count
    &&& forall|i: int| 0 <= i < n ==> #[trigger] after[i] == before[i]
    &&& forall|i: int|
        n <= i < n + count ==> #[trigger] after[i] == if i >= distance {
            after[i - distance]
        } else {
            0
        }
}

proof fn lemma_back_copied(out: Seq<u8>, distance: int, count: int)
    requires
        1 <= distance,
        0 <= count,
    ensures
        repeats(out, distance, count, back_copied(out, distance, count)),
    decreases count,
{
    if count > 0 {
        lemma_back_copied(out, distance, count - 1);
        let before = back_copied(out, distance, count - 1);
        let after = back_copied(out, distance, count);
        let n = out.len() as int;
        assert forall|i: int| n <= i < n + count implies #[trigger] after[i] == if i >= distance {
            after[i - distance]
        } else {
            0
        } by {
            if i < n + count - 1 {
                assert(after[i] == before[i]);
            }
        }
    }
}

/// The two bytes of a reference.
proof fn lemma_reference_bytes(b0: u8)
    ensures
        b0 >> 4 == b0 / 16,
        b0 & 0xF == b0 % 16,
{
    crate::apu::psg_laws::lemma_byte_fields(b0);
}

/// A reference packed as length less three in the upper four bits and
/// distance less one in the twelve below gives `length` bytes, each equal to
/// the one `distance` before it.
pub proof fn law_lz77_reference<M: Memory>(
    st: Unpacking<M::State>,
    distance: int,
    length: int,
    after: Seq<u8>,
)
    requires
        1 <= distance <= 4096,
        3 <= length <= 18,
        M::value8(st.mem, st.src) == (length - 3) * 16 + (distance - 1) / 256,
        M::value8(M::loaded8(st.mem, st.src), st.src.wrapping_add(1)) == (distance - 1) % 256,
        repeats(st.out, distance, length, after),
    ensures
        lz77_token::<M>(st, true).out == after,
        lz77_token::<M>(st, true).src == st.src.wrapping_add(2),
{
    let b0 = M::value8(st.mem, st.src);
    lemma_reference_bytes(b0);
    assert(b0 as int / 16 == length - 3 && b0 as int % 16 == (distance - 1) / 256);
    lemma_back_copied(st.out, distance, length);
    lemma_repeats_unique(
        st.out,
        distance,
        length,
        lz77_token::<M>(st, true).out,
        after,
    );
}

proof fn lemma_repeats_unique(
    before: Seq<u8>,
    distance: int,
    count: int,
    a: Seq<u8>,
    b: Seq<u8>,
)
    requires
        1 <= distance,
        repeats(before, distance, count, a),
        repeats(before, distance, count, b),
    ensures
        a == b,
{
    assert forall|i: int| 0 <= i < a.len() implies a[i] == b[i] by {
        lemma_repeats_at(before, distance, count, a, b, i);
    }
    assert(a =~= b);
}

proof fn lemma_repeats_at(
    before: Seq<u8>,
    distance: int,
    count: int,
    a: Seq<u8>,
    b: Seq<u8>,
    i: int,
)
    requires
        1 <= distance,
        repeats(before, distance, count, a),
        repeats(before, distance, count, b),
        0 <= i < a.len(),
    ensures
        a[i] == b[i],
    decreases i,
{
    if i >= before.len() && i >= distance {
        lemma_repeats_at(before, distance, count, a, b, i - distance);
    }
}

/// A token of packed data: a byte as it is, or the bytes from some way back.
pub enum Token {
    /// A byte.
    Literal(u8),
    /// Distance and length.
    Reference(int, int),
}

/// Whether the token can be packed.
pub open spec fn packable(token: Token) -> bool {
    token matches Token::Reference(distance, length) ==> 1 <= distance <= 4096 && 3 <= length <= 18
}

/// The bytes of a token.
pub open spec fn packed(token: Token) -> Seq<u8> {
    match token {
        Token::Literal(byte) => seq![byte],
        Token::Reference(distance, length) => seq![
            ((length - 3) * 16 + (distance - 1) / 256) as u8,
            ((distance - 1) % 256) as u8,
        ],
    }
}

/// What the data says after `token`.
pub open spec fn unpacks_to(before: Seq<u8>, token: Token, after: Seq<u8>) -> bool {
    match token {
        Token::Literal(byte) => after == before.push(byte),
        Token::Reference(distance, length) => repeats(before, distance, length, after),
    }
}

/// Whether reading bytes from `src` on in memory `s` yields `bytes`.
pub open spec fn reads<M: Memory>(s: M::State, src: u32, bytes: Seq<u8>) -> bool
    decreases bytes.len(),
{
    bytes.len() > 0 ==> {
        &&& M::value8(s, src) == bytes[0]
        &&& reads::<M>(M::loaded8(s, src), src.wrapping_add(1), bytes.skip(1))
    }
}

/// Memory after `count` bytes are read from `src` on.
pub open spec fn read_on<M: Memory>(s: M::State, src: u32, count: nat) -> M::State
    decreases count,
{
    if count == 0 {
        s
    } else {
        read_on::<M>(M::loaded8(s, src), src.wrapping_add(1), (count - 1) as nat)
    }
}

/// While there is something left to unpack, a flag byte says what the next
/// eight tokens are, the highest bit first: a token whose bit is set is a
/// reference, and one whose bit is clear a literal. The token that was packed
/// is the one that comes out.
pub proof fn law_lz77_tokens<M: Memory>(
    st: Unpacking<M::State>,
    size: int,
    flags: u8,
    left: int,
    token: Token,
    after: Seq<u8>,
)
    requires
        st.out.len() < size,
        1 <= left <= 8,
        packable(token),
        ((flags >> ((left - 1) as u8)) & 1 == 1) == (token is Reference),
        reads::<M>(st.mem, st.src, packed(token)),
        unpacks_to(st.out, token, after),
    ensures
        lz77_run::<M>(st, size, flags, left) == lz77_run::<M>(
            Unpacking {
                mem: read_on::<M>(st.mem, st.src, packed(token).len()),
                src: st.src.wrapping_add(packed(token).len() as u32),
                out: after,
            },
            size,
            flags,
            left - 1,
        ),
        lz77_run::<M>(st, size, flags, 0) == lz77_run::<M>(
            Unpacking {
                mem: M::loaded8(st.mem, st.src),
                src: st.src.wrapping_add(1),
                out: st.out,
            },
            size,
            M::value8(st.mem, st.src),
            8,
        ),
{
    reveal_with_fuel(reads, 3);
    reveal_with_fuel(read_on, 3);
    let bytes = packed(token);
    assert(bytes.skip(1)[0] == bytes[1] || bytes.len() == 1);
    lemma_flag_bit(flags, (left - 1) as u8);
    match token {
        Token::Literal(_) => {},
        Token::Reference(distance, length) => {
            assert(bytes.skip(1).len() == 1);
            assert(bytes.skip(1).skip(1).len() == 0);
            law_lz77_reference::<M>(st, distance, length, after);
        },
    }
}

proof fn lemma_flag_bit(flags: u8, i: u8)
    by (bit_vector)
    requires
        i < 8,
    ensures
        (flags >> i) & 1 == 0 || (flags >> i) & 1 == 1,
{
}

/// A run-length token: a byte of 128 or more repeats the byte that follows,
/// three times and once more for each unit above 128; a smaller one is
/// followed by that many bytes and one more, as they are.
pub proof fn law_run_length<M: Memory>(st: Unpacking<M::State>, bytes: Seq<u8>)
    requires
        bytes.len() > 0,
        reads::<M>(st.mem, st.src, bytes),
        bytes[0] >= 128 ==> bytes.len() == 2,
        bytes[0] < 128 ==> bytes.len() == bytes[0] + 2,
    ensures
        ({
            let after = rl_token::<M>(st);
            &&& after.src == st.src.wrapping_add(bytes.len() as u32)
            &&& bytes[0] >= 128 ==> after.out == st.out + Seq::new(
                (bytes[0] - 128 + 3) as nat,
                |i: int| bytes[1],
            )
            &&& bytes[0] < 128 ==> after.out == st.out + bytes.skip(1)
        }),
{
    let flag = bytes[0];
    crate::bits::small_facts(flag, 0, 0, 0);
    reveal_with_fuel(reads, 3);
    if flag >= 128 {
        assert(bytes.skip(1)[0] == bytes[1]);
        assert(rl_token::<M>(st).out =~= st.out + Seq::new(
            (bytes[0] - 128 + 3) as nat,
            |i: int| bytes[1],
        ));
    } else {
        let from = Unpacking {
            mem: M::loaded8(st.mem, st.src),
            src: st.src.wrapping_add(1),
            out: st.out,
        };
        lemma_literals::<M>(from, bytes.skip(1), flag + 1);
        assert(bytes.skip(1).take(flag + 1) =~= bytes.skip(1));
    }
}

proof fn lemma_literals<M: Memory>(st: Unpacking<M::State>, bytes: Seq<u8>, count: int)
    requires
        0 <= count <= bytes.len(),
        bytes.len() <= 200,
        reads::<M>(st.mem, st.src, bytes),
    ensures
        ({
            let after = literals::<M>(st, count);
            &&& after.src == st.src.wrapping_add(count as u32)
            &&& after.out == st.out + bytes.take(count)
            &&& reads::<M>(after.mem, after.src, bytes.skip(count))
        }),
    decreases count,
{
    if count > 0 {
        lemma_literals::<M>(st, bytes, count - 1);
        let before = literals::<M>(st, count - 1);
        let rest = bytes.skip(count - 1);
        assert(rest[0] == bytes[count - 1]);
        assert(rest.skip(1) =~= bytes.skip(count));
        assert(literals::<M>(st, count).out =~= st.out + bytes.take(count));
    } else {
        assert(bytes.skip(0) =~= bytes);
        assert(st.out + bytes.take(0) =~= st.out);
    }
}

/// A unit of a packed byte is the digit at its place, in the base that its
/// width gives, with the offset added unless it is a zero that stays one.
pub proof fn law_unpacked_unit(w: Widths, byte: u32, place: int)
    requires
        byte < 256,
        w.src_bits == 1 || w.src_bits == 2 || w.src_bits == 4 || w.src_bits == 8,
        0 <= place,
        place * w.src_bits < 8,
    ensures
        ({
            let base = pow2(w.src_bits as nat) as int;
            let digit = (byte as int / pow2((place * w.src_bits) as nat) as int) % base;
            widened(w, byte, place) == if digit != 0 || w.offset_zeros {
                (digit + w.offset) % 0x1_0000_0000
            } else {
                digit
            }
        }),
{
    let shift = (place * w.src_bits) as u32;
    vstd::bits::lemma_u32_shr_is_div(byte, shift);
    vstd::arithmetic::power2::lemma2_to64();
    let v = byte >> shift;
    lemma_digits(v);
    assert(1u32 << 1 == 2 && 1u32 << 2 == 4 && 1u32 << 4 == 16 && 1u32 << 8 == 256) by {
        vstd::bits::lemma_u32_shl_is_mul(1, 1);
        vstd::bits::lemma_u32_shl_is_mul(1, 2);
        vstd::bits::lemma_u32_shl_is_mul(1, 4);
        vstd::bits::lemma_u32_shl_is_mul(1, 8);
    }
}

#[verifier::rlimit(40)]
proof fn lemma_digits(v: u32)
    ensures
        v & 1 == v % 2,
        v & 3 == v % 4,
        v & 15 == v % 16,
        v & 255 == v % 256,
{
    crate::bits::word_facts(v, 0, 0, 0);
}

/// A unit that fits its width joins the output word above those that are
/// there, and a word that is full is stored and the next one begun.
pub proof fn law_unpacked_word<M: Memory>(st: Widening<M::State>, w: Widths, value: u32)
    requires
        st.bits < 32,
        st.bits + w.dst_bits <= 32,
        0 < w.dst_bits,
        st.word < pow2(st.bits as nat),
        value * pow2(st.bits as nat) <= u32::MAX,
    ensures
        ({
            let after = unit_added::<M>(st, w, value);
            let word = (st.word + value * pow2(st.bits as nat)) as u32;
            &&& st.bits + w.dst_bits < 32 ==> after.word == word && after.bits == st.bits
                + w.dst_bits && after.dst == st.dst && after.mem == st.mem
            &&& st.bits + w.dst_bits == 32 ==> after.mem == M::stored32(st.mem, st.dst, word)
                && after.dst == st.dst.wrapping_add(4) && after.word == 0 && after.bits == 0
        }),
{
    vstd::arithmetic::power2::lemma2_to64();
    vstd::arithmetic::power2::lemma_pow2_strictly_increases(st.bits as nat, 32);
    vstd::bits::lemma_u32_shl_is_mul(value, st.bits);
    assert(1 * pow2(st.bits as nat) <= u32::MAX);
    vstd::bits::lemma_u32_shl_is_mul(1, st.bits);
    vstd::bits::lemma_u32_shl_is_mul(value, st.bits);
    lemma_disjoint(st.word, value, st.bits);
}

#[verifier::rlimit(40)]
proof fn lemma_disjoint(word: u32, value: u32, bits: u32)
    requires
        bits < 32,
        word < 1u32 << bits,
    ensures
        word | (value << bits) == word + (value << bits),
{
    crate::bits::word_facts(word, value, bits, 0);
}

/// The halfwords that decompression to video memory writes hold two bytes,
/// the first one low; a last lone byte has zero above it.
pub proof fn law_output_halves(out: Seq<u8>, i: int)
    requires
        0 <= i,
        2 * i < out.len(),
    ensures
        output_half(out, i) == out[2 * i] + 256 * if 2 * i + 1 < out.len() {
            out[2 * i + 1] as int
        } else {
            0
        },
{
    let hi = if 2 * i + 1 < out.len() {
        out[2 * i + 1]
    } else {
        0
    };
    crate::bytes_laws::lemma_half_number(out[2 * i], hi);
}

} // verus!
