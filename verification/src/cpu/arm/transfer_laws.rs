//! What the ARM multiplies, branches, transfers and status instructions do,
//! said of their encodings.

use vstd::prelude::*;

use crate::cpu::arm::alu::long_product;
use crate::cpu::arm::mem::{block_of, list_size, listed, Block};
use crate::cpu::arm::laws::{is_set, lemma_status_bits, with_register, with_status};
use crate::cpu::load::{halfword_value, word_value};
use crate::cpu::registers::{FLAG_N, FLAG_Z};
use crate::cpu::CpuView;
use crate::memory::Memory;

verus! {

broadcast use crate::bits::group_mask_bounds;

/// `MUL` and, with `a`, `MLA`.
pub open spec fn multiply(a: u32, s: u32, rd: u32, rn: u32, rs: u32, rm: u32) -> u32 {
    0xE000_0090u32 | (a << 21) | (s << 20) | (rd << 16) | (rn << 12) | (rs << 8) | rm
}

/// `UMULL` and its kin: signed with `g`, accumulating with `a`.
pub open spec fn long_multiply(g: u32, a: u32, hi: u32, lo: u32, rs: u32, rm: u32) -> u32 {
    0xE080_0090u32 | (g << 22) | (a << 21) | (hi << 16) | (lo << 12) | (rs << 8) | rm
}

/// `SWP` and, with `b`, `SWPB`.
pub open spec fn swap(b: u32, rn: u32, rd: u32, rm: u32) -> u32 {
    0xE100_0090u32 | (b << 22) | (rn << 16) | (rd << 12) | rm
}

proof fn lemma_multiply_fields(g: u32, a: u32, s: u32, d: u32, n: u32, rs: u32, rm: u32)
    by (bit_vector)
    requires
        g < 2,
        a < 2,
        s < 2,
        d < 16,
        n < 16,
        rs < 16,
        rm < 16,
    ensures
        (multiply(a, s, d, n, rs, rm) >> 28) & 0xF == 0xE,
        (multiply(a, s, d, n, rs, rm) >> 25) & 7 == 0,
        multiply(a, s, d, n, rs, rm) & 0x0FFF_FFF0 != 0x012F_FF10,
        (multiply(a, s, d, n, rs, rm) >> 4) & 0xF == 9,
        (multiply(a, s, d, n, rs, rm) >> 23) & 3 == 0,
        multiply(a, s, d, n, rs, rm) & (1u32 << 21) != 0 <==> a == 1,
        multiply(a, s, d, n, rs, rm) & (1u32 << 20) != 0 <==> s == 1,
        (multiply(a, s, d, n, rs, rm) >> 16) & 0xF == d,
        (multiply(a, s, d, n, rs, rm) >> 12) & 0xF == n,
        (multiply(a, s, d, n, rs, rm) >> 8) & 0xF == rs,
        multiply(a, s, d, n, rs, rm) & 0xF == rm,
        (long_multiply(g, a, d, n, rs, rm) >> 28) & 0xF == 0xE,
        (long_multiply(g, a, d, n, rs, rm) >> 25) & 7 == 0,
        long_multiply(g, a, d, n, rs, rm) & 0x0FFF_FFF0 != 0x012F_FF10,
        (long_multiply(g, a, d, n, rs, rm) >> 4) & 0xF == 9,
        (long_multiply(g, a, d, n, rs, rm) >> 23) & 3 == 1,
        long_multiply(g, a, d, n, rs, rm) & (1u32 << 22) != 0 <==> g == 1,
        long_multiply(g, a, d, n, rs, rm) & (1u32 << 21) != 0 <==> a == 1,
        long_multiply(g, a, d, n, rs, rm) & (1u32 << 20) == 0,
        (long_multiply(g, a, d, n, rs, rm) >> 16) & 0xF == d,
        (long_multiply(g, a, d, n, rs, rm) >> 12) & 0xF == n,
        (long_multiply(g, a, d, n, rs, rm) >> 8) & 0xF == rs,
        long_multiply(g, a, d, n, rs, rm) & 0xF == rm,
        (swap(g, d, n, rm) >> 28) & 0xF == 0xE,
        (swap(g, d, n, rm) >> 25) & 7 == 0,
        swap(g, d, n, rm) & 0x0FFF_FFF0 != 0x012F_FF10,
        (swap(g, d, n, rm) >> 4) & 0xF == 9,
        (swap(g, d, n, rm) >> 23) & 3 == 2,
        swap(g, d, n, rm) & 0x0030_0F00 == 0,
        swap(g, d, n, rm) & (1u32 << 22) != 0 <==> g == 1,
        (swap(g, d, n, rm) >> 16) & 0xF == d,
        (swap(g, d, n, rm) >> 12) & 0xF == n,
        swap(g, d, n, rm) & 0xF == rm,
{
}

/// A multiply gives the low word of the product, plus the accumulator where
/// there is one, and with the S bit says whether it is zero or negative.
#[verifier::rlimit(60)]
pub proof fn law_multiply<M: Memory>(
    cpu: CpuView,
    m: M::State,
    a: u32,
    s: u32,
    rd: u32,
    rn: u32,
    rs: u32,
    rm: u32,
)
    requires
        cpu.regs.wf(),
        a < 2,
        s < 2,
        rd < 15,
        rn < 16,
        rs < 16,
        rm < 16,
    ensures
        ({
            let after = cpu.execute_arm::<M>(m, multiply(a, s, rd, rn, rs, rm)).0;
            let r = after.regs.gpr[rd as int];
            let status = after.regs.cpsr.0;
            &&& r == (cpu.regs.gpr[rm as int] * cpu.regs.gpr[rs as int] + a
                * cpu.regs.gpr[rn as int]) % 0x1_0000_0000
            &&& s == 0 ==> after == with_register(cpu, rd as int, r)
            &&& s == 1 ==> {
                &&& after == with_register(with_status(cpu, status), rd as int, r)
                &&& is_set(status, 31) == (r >= 0x8000_0000)
                &&& is_set(status, 30) == (r == 0)
                &&& is_set(status, 29) == is_set(cpu.regs.cpsr.0, 29)
                &&& is_set(status, 28) == is_set(cpu.regs.cpsr.0, 28)
                &&& status % 0x1000_0000 == cpu.regs.cpsr.0 % 0x1000_0000
            }
        }),
{
    reveal(CpuView::execute_arm);
    lemma_multiply_fields(0, a, s, rd, rn, rs, rm);
    let (x, y, z) = (
        cpu.regs.gpr[rm as int],
        cpu.regs.gpr[rs as int],
        cpu.regs.gpr[rn as int],
    );
    let product = x.wrapping_mul(y);
    assert(product == (x * y) % 0x1_0000_0000);
    assert(a * z == if a == 1 {
        z as int
    } else {
        0
    }) by (nonlinear_arith)
        requires
            a == 0 || a == 1,
    ;
    assert((x * y + z) % 0x1_0000_0000 == ((x * y) % 0x1_0000_0000 + z) % 0x1_0000_0000) by {
        vstd::arithmetic::div_mod::lemma_add_mod_noop_right(z as int, x * y, 0x1_0000_0000);
    }
    let r = if a == 1 {
        product.wrapping_add(z)
    } else {
        product
    };
    let s1 = cpu.regs.cpsr.with(FLAG_N, r & FLAG_N != 0);
    lemma_status_bits(r, 31);
    lemma_status_bits(cpu.regs.cpsr.0, 31);
    lemma_status_bits(s1.0, 30);
}

/// A long multiply gives the whole product over two registers, signed or
/// not, plus what the two held before where it accumulates.
#[verifier::rlimit(60)]
pub proof fn law_long_multiply<M: Memory>(
    cpu: CpuView,
    m: M::State,
    a: u32,
    hi: u32,
    lo: u32,
    rs: u32,
    rm: u32,
)
    requires
        cpu.regs.wf(),
        a < 2,
        hi < 15,
        lo < 15,
        hi != lo,
        rs < 16,
        rm < 16,
    ensures
        ({
            let unsigned = cpu.execute_arm::<M>(m, long_multiply(0, a, hi, lo, rs, rm)).0;
            let signed = cpu.execute_arm::<M>(m, long_multiply(1, a, hi, lo, rs, rm)).0;
            let (x, y) = (cpu.regs.gpr[rm as int], cpu.regs.gpr[rs as int]);
            let acc = a * (cpu.regs.gpr[hi as int] * 0x1_0000_0000 + cpu.regs.gpr[lo as int]);
            let value = |after: CpuView|
                after.regs.gpr[hi as int] * 0x1_0000_0000 + after.regs.gpr[lo as int];
            &&& value(unsigned) == (x * y + acc) % 0x1_0000_0000_0000_0000
            &&& value(signed) == ((x as i32) * (y as i32) + acc) % 0x1_0000_0000_0000_0000
            &&& unsigned == with_register(
                with_register(cpu, lo as int, unsigned.regs.gpr[lo as int]),
                hi as int,
                unsigned.regs.gpr[hi as int],
            )
        }),
{
    lemma_long_result::<M>(cpu, m, 0, a, hi, lo, rs, rm);
    lemma_long_result::<M>(cpu, m, 1, a, hi, lo, rs, rm);
    let (x, y) = (cpu.regs.gpr[rm as int], cpu.regs.gpr[rs as int]);
    let (h, l) = (cpu.regs.gpr[hi as int], cpu.regs.gpr[lo as int]);
    lemma_product_range(x as int, y as int, (x as i32) as int, (y as i32) as int);
    lemma_long_value(h, l, 0);
    let acc: u64 = ((h as u64) << 32) | (l as u64);
    assert(a * (h * 0x1_0000_0000 + l) == if a == 1 {
        acc as int
    } else {
        0
    }) by (nonlinear_arith)
        requires
            a == 0 || a == 1,
            acc == h * 0x1_0000_0000 + l,
    ;
    let p = (x * y) as u64;
    let product = ((x as i32) * (y as i32)) as i64;
    lemma_signed_long(product);
    let q = product as u64;
    lemma_long_parts(p);
    lemma_long_parts(q);
    lemma_long_parts(p.wrapping_add(acc));
    lemma_long_parts(q.wrapping_add(acc));
    assert(p.wrapping_add(acc) == (p + acc) % 0x1_0000_0000_0000_0000);
    assert(q.wrapping_add(acc) == (q + acc) % 0x1_0000_0000_0000_0000);
    assert(q == (product as int) % 0x1_0000_0000_0000_0000);
    assert((q + acc) % 0x1_0000_0000_0000_0000 == (product + acc) % 0x1_0000_0000_0000_0000);
}

/// The two halves of a double word make it up.
proof fn lemma_long_parts(d: u64)
    ensures
        ((d >> 32) as u32) * 0x1_0000_0000 + (d as u32) == d,
{
    lemma_long_value(0, 0, d);
}

/// Where a long multiply leaves its result.
proof fn lemma_long_result<M: Memory>(
    cpu: CpuView,
    m: M::State,
    g: u32,
    a: u32,
    hi: u32,
    lo: u32,
    rs: u32,
    rm: u32,
)
    requires
        cpu.regs.wf(),
        g < 2,
        a < 2,
        hi < 15,
        lo < 15,
        hi != lo,
        rs < 16,
        rm < 16,
    ensures
        ({
            let product = long_product(cpu.regs.gpr[rm as int], cpu.regs.gpr[rs as int], g == 1);
            let acc: u64 = ((cpu.regs.gpr[hi as int] as u64) << 32) | (cpu.regs.gpr[lo as int]
                as u64);
            let result = if a == 1 {
                product.wrapping_add(acc)
            } else {
                product
            };
            cpu.execute_arm::<M>(m, long_multiply(g, a, hi, lo, rs, rm)).0 == with_register(
                with_register(cpu, lo as int, result as u32),
                hi as int,
                (result >> 32) as u32,
            )
        }),
{
    reveal(CpuView::execute_arm);
    lemma_multiply_fields(g, a, 0, hi, lo, rs, rm);
}

proof fn lemma_product_range(x: int, y: int, sx: int, sy: int)
    requires
        0 <= x < 0x1_0000_0000,
        0 <= y < 0x1_0000_0000,
        -0x8000_0000 <= sx < 0x8000_0000,
        -0x8000_0000 <= sy < 0x8000_0000,
    ensures
        0 <= x * y <= 0xFFFF_FFFE_0000_0001,
        -0x4000_0000_0000_0000 <= sx * sy <= 0x4000_0000_0000_0000,
{
    assert(0 <= x * y <= 0xFFFF_FFFE_0000_0001) by (nonlinear_arith)
        requires
            0 <= x <= 0xFFFF_FFFF,
            0 <= y <= 0xFFFF_FFFF,
    ;
    assert(-0x4000_0000_0000_0000 <= sx * sy <= 0x4000_0000_0000_0000) by (nonlinear_arith)
        requires
            -0x8000_0000 <= sx <= 0x8000_0000,
            -0x8000_0000 <= sy <= 0x8000_0000,
    ;
}

proof fn lemma_long_value(h: u32, l: u32, d: u64)
    by (bit_vector)
    ensures
        ((h as u64) << 32) | (l as u64) == (h as u64) * 0x1_0000_0000 + (l as u64),
        ((d >> 32) as u32) as u64 == d >> 32,
        d >> 32 == d / 0x1_0000_0000,
        (d as u32) as u64 == d & 0xFFFF_FFFF,
        d & 0xFFFF_FFFF == d % 0x1_0000_0000,
{
}

proof fn lemma_signed_long(v: i64)
    by (bit_vector)
    ensures
        v >= 0 ==> (v as u64) == v,
        v < 0 ==> (v as u64) == v + 0x1_0000_0000_0000_0000,
{
}

/// A swap brings what the addressed word or byte held into one register and
/// leaves another one there.
#[verifier::rlimit(60)]
pub proof fn law_swap<M: Memory>(cpu: CpuView, m: M::State, rn: u32, rd: u32, rm: u32)
    requires
        cpu.regs.wf(),
        rn < 16,
        rd < 15,
        rm < 16,
        cpu.regs.gpr[rn as int] % 4 == 0,
    ensures
        ({
            let at = cpu.regs.gpr[rn as int];
            let source = cpu.regs.gpr[rm as int];
            &&& cpu.execute_arm::<M>(m, swap(0, rn, rd, rm)) == (
                with_register(cpu, rd as int, M::value32(m, at)),
                M::stored32(M::loaded32(m, at), at, source),
                1u32,
            )
            &&& cpu.execute_arm::<M>(m, swap(1, rn, rd, rm)) == (
                with_register(cpu, rd as int, M::value8(m, at) as u32),
                M::stored8(M::loaded8(m, at), at, source as u8),
                1u32,
            )
        }),
{
    reveal(CpuView::execute_arm);
    lemma_multiply_fields(0, 0, 0, rn, rd, 0, rm);
    lemma_multiply_fields(1, 0, 0, rn, rd, 0, rm);
    crate::cpu::arm::transfer_laws::lemma_aligned_word(cpu.regs.gpr[rn as int]);
}

pub(crate) proof fn lemma_aligned_word(a: u32)
    ensures
        a % 4 == 0 ==> a & !3u32 == a && a & 3 == 0,
        a % 2 == 0 ==> a & !1u32 == a && a & 1 == 0,
        a % 2 == 1 ==> a & 1 == 1,
        a & 3 == a % 4,
        a & !3u32 == a - a % 4,
        a & !1u32 == a - a % 2,
{
    crate::bits::word_facts(a, 0, 0, 0);
}

/// A single load or store with an immediate offset: `p` for an offset that
/// is applied first, `u` for one that is added, `b` for a byte, `w` for
/// writing the address back, `l` for a load.
pub open spec fn transfer(
    p: u32,
    u: u32,
    b: u32,
    w: u32,
    l: u32,
    rn: u32,
    rd: u32,
    offset: u32,
) -> u32 {
    0xE400_0000u32 | (p << 24) | (u << 23) | (b << 22) | (w << 21) | (l << 20) | (rn << 16) | (rd
        << 12) | offset
}

/// A halfword or signed transfer with an immediate offset; `kind` is 1 for a
/// halfword, 2 for a signed byte and 3 for a signed halfword.
pub open spec fn half_transfer(
    p: u32,
    u: u32,
    w: u32,
    l: u32,
    rn: u32,
    rd: u32,
    kind: u32,
    offset: u32,
) -> u32 {
    0xE040_0090u32 | (p << 24) | (u << 23) | (w << 21) | (l << 20) | (rn << 16) | (rd << 12) | ((
    offset >> 4) << 8) | (kind << 5) | (offset & 0xF)
}

/// `LDM` and `STM` of the registers in `list`: `p` for counting before the
/// access, `u` for upwards, `b` for the User registers or the saved status.
pub open spec fn block_transfer(
    p: u32,
    u: u32,
    b: u32,
    w: u32,
    l: u32,
    rn: u32,
    list: u32,
) -> u32 {
    0xE800_0000u32 | (p << 24) | (u << 23) | (b << 22) | (w << 21) | (l << 20) | (rn << 16) | list
}

proof fn lemma_transfer_fields(
    p: u32,
    u: u32,
    b: u32,
    w: u32,
    l: u32,
    rn: u32,
    rd: u32,
    offset: u32,
    kind: u32,
)
    by (bit_vector)
    requires
        p < 2,
        u < 2,
        b < 2,
        w < 2,
        l < 2,
        rn < 16,
        rd < 16,
        offset < 0x1000,
        1 <= kind < 4,
    ensures
        (transfer(p, u, b, w, l, rn, rd, offset) >> 28) & 0xF == 0xE,
        (transfer(p, u, b, w, l, rn, rd, offset) >> 25) & 7 == 2,
        transfer(p, u, b, w, l, rn, rd, offset) & (1u32 << 25) == 0,
        transfer(p, u, b, w, l, rn, rd, offset) & (1u32 << 24) != 0 <==> p == 1,
        transfer(p, u, b, w, l, rn, rd, offset) & (1u32 << 23) != 0 <==> u == 1,
        transfer(p, u, b, w, l, rn, rd, offset) & (1u32 << 22) != 0 <==> b == 1,
        transfer(p, u, b, w, l, rn, rd, offset) & (1u32 << 21) != 0 <==> w == 1,
        transfer(p, u, b, w, l, rn, rd, offset) & (1u32 << 20) != 0 <==> l == 1,
        (transfer(p, u, b, w, l, rn, rd, offset) >> 16) & 0xF == rn,
        (transfer(p, u, b, w, l, rn, rd, offset) >> 12) & 0xF == rd,
        transfer(p, u, b, w, l, rn, rd, offset) & 0xFFF == offset,
        (block_transfer(p, u, b, w, l, rn, (rd << 12) | offset) >> 28) & 0xF == 0xE,
        (block_transfer(p, u, b, w, l, rn, (rd << 12) | offset) >> 25) & 7 == 4,
        block_transfer(p, u, b, w, l, rn, (rd << 12) | offset) & (1u32 << 24) != 0 <==> p == 1,
        block_transfer(p, u, b, w, l, rn, (rd << 12) | offset) & (1u32 << 23) != 0 <==> u == 1,
        block_transfer(p, u, b, w, l, rn, (rd << 12) | offset) & (1u32 << 22) != 0 <==> b == 1,
        block_transfer(p, u, b, w, l, rn, (rd << 12) | offset) & (1u32 << 21) != 0 <==> w == 1,
        block_transfer(p, u, b, w, l, rn, (rd << 12) | offset) & (1u32 << 20) != 0 <==> l == 1,
        (block_transfer(p, u, b, w, l, rn, (rd << 12) | offset) >> 16) & 0xF == rn,
        block_transfer(p, u, b, w, l, rn, (rd << 12) | offset) & 0xFFFF == (rd << 12) | offset,
        rd == 0 ==> (rd << 12) | offset == offset,
        offset < 0x100 ==> (offset >> 8) & 1 == 0 && (offset >> 9) & 1 == 0,
        offset < 0x100 ==> (offset >> 10) & 1 == 0 && (offset >> 11) & 1 == 0,
        offset < 0x100 ==> (offset >> 12) & 1 == 0 && (offset >> 13) & 1 == 0,
        offset < 0x100 ==> (offset >> 14) & 1 == 0 && (offset >> 15) & 1 == 0,
        offset < 0x100 ==> (half_transfer(p, u, w, l, rn, rd, kind, offset) >> 28) & 0xF == 0xE,
        offset < 0x100 ==> (half_transfer(p, u, w, l, rn, rd, kind, offset) >> 25) & 7 == 0,
        offset < 0x100 ==> half_transfer(p, u, w, l, rn, rd, kind, offset) & 0x0FFF_FFF0
            != 0x012F_FF10,
        offset < 0x100 ==> (half_transfer(p, u, w, l, rn, rd, kind, offset) >> 4) & 0xF != 9,
        offset < 0x100 ==> ((half_transfer(p, u, w, l, rn, rd, kind, offset) >> 4) & 0xF) & 9 == 9,
        offset < 0x100 ==> half_transfer(p, u, w, l, rn, rd, kind, offset) & (1u32 << 22) != 0,
        offset < 0x100 ==> (half_transfer(p, u, w, l, rn, rd, kind, offset) & (1u32 << 24) != 0
            <==> p == 1),
        offset < 0x100 ==> (half_transfer(p, u, w, l, rn, rd, kind, offset) & (1u32 << 23) != 0
            <==> u == 1),
        offset < 0x100 ==> (half_transfer(p, u, w, l, rn, rd, kind, offset) & (1u32 << 21) != 0
            <==> w == 1),
        offset < 0x100 ==> (half_transfer(p, u, w, l, rn, rd, kind, offset) & (1u32 << 20) != 0
            <==> l == 1),
        offset < 0x100 ==> (half_transfer(p, u, w, l, rn, rd, kind, offset) >> 16) & 0xF == rn,
        offset < 0x100 ==> (half_transfer(p, u, w, l, rn, rd, kind, offset) >> 12) & 0xF == rd,
        offset < 0x100 ==> (half_transfer(p, u, w, l, rn, rd, kind, offset) >> 5) & 3 == kind,
        offset < 0x100 ==> ((half_transfer(p, u, w, l, rn, rd, kind, offset) >> 4) & 0xF0) | (
        half_transfer(p, u, w, l, rn, rd, kind, offset) & 0xF) == offset,
{
}

/// The base register moved by an offset, up or down.
pub open spec fn moved(base: u32, u: u32, offset: u32) -> u32 {
    if u == 1 {
        ((base + offset) % 0x1_0000_0000) as u32
    } else {
        ((base - offset) % 0x1_0000_0000) as u32
    }
}

/// Stores of words and bytes: the offset moves the address before the access
/// or, without `p`, after it, and the base keeps the moved address in the
/// latter case and where it is to be written back. Nothing else changes.
#[verifier::rlimit(60)]
pub proof fn law_stores<M: Memory>(
    cpu: CpuView,
    m: M::State,
    p: u32,
    u: u32,
    w: u32,
    rn: u32,
    rd: u32,
    offset: u32,
)
    requires
        cpu.regs.wf(),
        p < 2,
        u < 2,
        w < 2,
        rn < 15,
        rd < 15,
        offset < 0x1000,
    ensures
        ({
            let base = cpu.regs.gpr[rn as int];
            let at = if p == 1 {
                moved(base, u, offset)
            } else {
                base
            };
            let indexed = if p == 0 || w == 1 {
                with_register(cpu, rn as int, moved(base, u, offset))
            } else {
                cpu
            };
            &&& cpu.execute_arm::<M>(m, transfer(p, u, 0, w, 0, rn, rd, offset)) == (
                indexed,
                M::stored32(m, (at - at % 4) as u32, cpu.regs.gpr[rd as int]),
                0u32,
            )
            &&& cpu.execute_arm::<M>(m, transfer(p, u, 1, w, 0, rn, rd, offset)) == (
                indexed,
                M::stored8(m, at, cpu.regs.gpr[rd as int] as u8),
                0u32,
            )
        }),
{
    reveal(CpuView::execute_arm);
    lemma_transfer_fields(p, u, 0, w, 0, rn, rd, offset, 1);
    lemma_transfer_fields(p, u, 1, w, 0, rn, rd, offset, 1);
    let base = cpu.regs.gpr[rn as int];
    assert(base.wrapping_add(offset) == moved(base, 1, offset));
    assert(base.wrapping_sub(offset) == moved(base, 0, offset));
    lemma_aligned_word(base);
    lemma_aligned_word(moved(base, u, offset));
}

/// Loads of words and bytes, with the same addresses; a load of the base
/// register wins over writing it back.
#[verifier::rlimit(60)]
pub proof fn law_loads<M: Memory>(
    cpu: CpuView,
    m: M::State,
    p: u32,
    u: u32,
    w: u32,
    rn: u32,
    rd: u32,
    offset: u32,
)
    requires
        cpu.regs.wf(),
        p < 2,
        u < 2,
        w < 2,
        rn < 15,
        rd < 15,
        offset < 0x1000,
    ensures
        ({
            let base = cpu.regs.gpr[rn as int];
            let at = if p == 1 {
                moved(base, u, offset)
            } else {
                base
            };
            let indexed = if p == 0 || w == 1 {
                with_register(cpu, rn as int, moved(base, u, offset))
            } else {
                cpu
            };
            &&& cpu.execute_arm::<M>(m, transfer(p, u, 1, w, 1, rn, rd, offset)) == (
                with_register(indexed, rd as int, M::value8(m, at) as u32),
                M::loaded8(m, at),
                1u32,
            )
            &&& at % 4 == 0 ==> cpu.execute_arm::<M>(m, transfer(p, u, 0, w, 1, rn, rd, offset))
                == (
                with_register(indexed, rd as int, M::value32(m, at)),
                M::loaded32(m, at),
                1u32,
            )
        }),
{
    reveal(CpuView::execute_arm);
    lemma_transfer_fields(p, u, 0, w, 1, rn, rd, offset, 1);
    lemma_transfer_fields(p, u, 1, w, 1, rn, rd, offset, 1);
    let base = cpu.regs.gpr[rn as int];
    assert(base.wrapping_add(offset) == moved(base, 1, offset));
    assert(base.wrapping_sub(offset) == moved(base, 0, offset));
    lemma_aligned_word(base);
    lemma_aligned_word(moved(base, u, offset));
}

/// A word load from an address that is not a multiple of four gives the word
/// that contains it, turned so that the addressed byte comes first: byte `k`
/// of the result is byte `(k + address) mod 4` of the word.
#[verifier::rlimit(60)]
pub proof fn law_unaligned_word<M: Memory>(
    cpu: CpuView,
    m: M::State,
    rn: u32,
    rd: u32,
    k: u32,
)
    requires
        cpu.regs.wf(),
        rn < 15,
        rd < 15,
        k < 4,
    ensures
        ({
            let at = cpu.regs.gpr[rn as int];
            let word = M::value32(m, (at - at % 4) as u32);
            let loaded = cpu.execute_arm::<M>(m, transfer(1, 1, 0, 0, 1, rn, rd, 0)).0;
            let r = loaded.regs.gpr[rd as int];
            (r >> ((8 * k) as u32)) as u8 == (word >> ((8 * ((k + at) % 4)) as u32)) as u8
        }),
{
    reveal(CpuView::execute_arm);
    lemma_transfer_fields(1, 1, 0, 0, 1, rn, rd, 0, 1);
    let at = cpu.regs.gpr[rn as int];
    lemma_aligned_word(at);
    assert(at.wrapping_add(0) == at);
    let word = M::value32(m, (at - at % 4) as u32);
    lemma_turned_bytes(word, k, (at % 4) as u32);
    assert((k + at) % 4 == (k + at % 4) % 4);
}

proof fn lemma_turned_bytes(word: u32, k: u32, n: u32)
    by (bit_vector)
    requires
        k < 4,
        n < 4,
    ensures
        n == 0 ==> (word >> ((8 * k) as u32)) as u8 == (word >> ((8 * ((k + n) % 4)) as u32)) as u8,
        n > 0 ==> (((word >> ((8 * n) as u32)) | (word << ((32 - 8 * n) as u32))) >> ((8
            * k) as u32)) as u8 == (word >> ((8 * ((k + n) % 4)) as u32)) as u8,
{
}

/// A halfword is stored from the low half of a register, and loaded with
/// zeros above it.
#[verifier::rlimit(60)]
pub proof fn law_half_transfers<M: Memory>(
    cpu: CpuView,
    m: M::State,
    p: u32,
    u: u32,
    w: u32,
    rn: u32,
    rd: u32,
    offset: u32,
)
    requires
        cpu.regs.wf(),
        p < 2,
        u < 2,
        w < 2,
        rn < 15,
        rd < 15,
        offset < 0x100,
    ensures
        ({
            let base = cpu.regs.gpr[rn as int];
            let at = if p == 1 {
                moved(base, u, offset)
            } else {
                base
            };
            let indexed = if p == 0 || w == 1 {
                with_register(cpu, rn as int, moved(base, u, offset))
            } else {
                cpu
            };
            &&& cpu.execute_arm::<M>(m, half_transfer(p, u, w, 0, rn, rd, 1, offset)) == (
                indexed,
                M::stored16(m, (at - at % 2) as u32, cpu.regs.gpr[rd as int] as u16),
                0u32,
            )
            &&& at % 2 == 0 ==> cpu.execute_arm::<M>(
                m,
                half_transfer(p, u, w, 1, rn, rd, 1, offset),
            ) == (
                with_register(indexed, rd as int, M::value16(m, at) as u32),
                M::loaded16(m, at),
                1u32,
            )
        }),
{
    reveal(CpuView::execute_arm);
    lemma_transfer_fields(p, u, 0, w, 0, rn, rd, offset, 1);
    lemma_transfer_fields(p, u, 0, w, 1, rn, rd, offset, 1);
    let base = cpu.regs.gpr[rn as int];
    assert(base.wrapping_add(offset) == moved(base, 1, offset));
    assert(base.wrapping_sub(offset) == moved(base, 0, offset));
    let at = if p == 1 {
        moved(base, u, offset)
    } else {
        base
    };
    lemma_aligned_word(at);
}

/// A signed byte is loaded with its sign above it.
#[verifier::rlimit(60)]
pub proof fn law_signed_byte_load<M: Memory>(
    cpu: CpuView,
    m: M::State,
    p: u32,
    u: u32,
    w: u32,
    rn: u32,
    rd: u32,
    offset: u32,
)
    requires
        cpu.regs.wf(),
        p < 2,
        u < 2,
        w < 2,
        rn < 15,
        rd < 15,
        offset < 0x100,
    ensures
        ({
            let base = cpu.regs.gpr[rn as int];
            let at = if p == 1 {
                moved(base, u, offset)
            } else {
                base
            };
            let indexed = if p == 0 || w == 1 {
                with_register(cpu, rn as int, moved(base, u, offset))
            } else {
                cpu
            };
            let after = cpu.execute_arm::<M>(m, half_transfer(p, u, w, 1, rn, rd, 2, offset));
            let r = after.0.regs.gpr[rd as int];
            &&& r as i32 == M::value8(m, at) as i8
            &&& after == (with_register(indexed, rd as int, r), M::loaded8(m, at), 1u32)
        }),
{
    reveal(CpuView::execute_arm);
    lemma_transfer_fields(p, u, 0, w, 1, rn, rd, offset, 2);
    let base = cpu.regs.gpr[rn as int];
    assert(base.wrapping_add(offset) == moved(base, 1, offset));
    assert(base.wrapping_sub(offset) == moved(base, 0, offset));
    let at = if p == 1 {
        moved(base, u, offset)
    } else {
        base
    };
    lemma_aligned_word(at);
    lemma_extended(M::value8(m, at) as i8, 0);
}

/// A signed halfword is loaded with its sign above it, and from an odd
/// address as the byte there.
#[verifier::rlimit(60)]
pub proof fn law_signed_half_load<M: Memory>(
    cpu: CpuView,
    m: M::State,
    p: u32,
    u: u32,
    w: u32,
    rn: u32,
    rd: u32,
    offset: u32,
)
    requires
        cpu.regs.wf(),
        p < 2,
        u < 2,
        w < 2,
        rn < 15,
        rd < 15,
        offset < 0x100,
    ensures
        ({
            let base = cpu.regs.gpr[rn as int];
            let at = if p == 1 {
                moved(base, u, offset)
            } else {
                base
            };
            let indexed = if p == 0 || w == 1 {
                with_register(cpu, rn as int, moved(base, u, offset))
            } else {
                cpu
            };
            let after = cpu.execute_arm::<M>(m, half_transfer(p, u, w, 1, rn, rd, 3, offset));
            let r = after.0.regs.gpr[rd as int];
            &&& after.0 == with_register(indexed, rd as int, r)
            &&& at % 2 == 0 ==> r as i32 == M::value16(m, at) as i16
            &&& at % 2 == 1 ==> r as i32 == M::value8(m, at) as i8
        }),
{
    reveal(CpuView::execute_arm);
    lemma_transfer_fields(p, u, 0, w, 1, rn, rd, offset, 3);
    let base = cpu.regs.gpr[rn as int];
    assert(base.wrapping_add(offset) == moved(base, 1, offset));
    assert(base.wrapping_sub(offset) == moved(base, 0, offset));
    let at = if p == 1 {
        moved(base, u, offset)
    } else {
        base
    };
    lemma_aligned_word(at);
    lemma_extended(M::value8(m, at) as i8, M::value16(m, at) as i16);
}

pub(crate) proof fn lemma_extended(b: i8, h: i16)
    by (bit_vector)
    ensures
        ((b as i32) as u32) as i32 == b as i32,
        ((h as i32) as u32) as i32 == h as i32,
{
}

/// `B` and, with `link`, `BL`.
pub open spec fn branch(link: u32, offset: u32) -> u32 {
    0xEA00_0000u32 | (link << 24) | offset
}

/// `BX`.
pub open spec fn exchange(rm: u32) -> u32 {
    0xE12F_FF10u32 | rm
}

/// `MRS`, of the saved status with `r`.
pub open spec fn read_status(r: u32, rd: u32) -> u32 {
    0xE10F_0000u32 | (r << 22) | (rd << 12)
}

/// `MSR` of the bytes that `fields` selects, of the saved status with `r`.
pub open spec fn write_status(r: u32, fields: u32, rm: u32) -> u32 {
    0xE120_F000u32 | (r << 22) | (fields << 16) | rm
}

proof fn lemma_branch_fields(link: u32, offset: u32, rm: u32, rd: u32, r: u32, fields: u32)
    by (bit_vector)
    requires
        link < 2,
        offset < 0x100_0000,
        rm < 16,
        rd < 16,
        r < 2,
        fields < 16,
    ensures
        (branch(link, offset) >> 28) & 0xF == 0xE,
        (branch(link, offset) >> 25) & 7 == 5,
        branch(link, offset) & (1u32 << 24) != 0 <==> link == 1,
        offset < 0x80_0000 ==> (((branch(link, offset) << 8) as i32) >> 6u32) as u32 == 4 * offset,
        offset >= 0x80_0000 ==> (((branch(link, offset) << 8) as i32) >> 6u32) as u32 == 4 * offset
            + 0xFC00_0000,
        ((0xEF00_0000u32 | offset) >> 28) & 0xF == 0xE,
        ((0xEF00_0000u32 | offset) >> 25) & 7 == 7,
        (0xEF00_0000u32 | offset) & 0x0100_0000 != 0,
        ((0xEF00_0000u32 | offset) >> 16) as u8 == (offset >> 16) as u8,
        (exchange(rm) >> 28) & 0xF == 0xE,
        (exchange(rm) >> 25) & 7 == 0,
        exchange(rm) & 0x0FFF_FFF0 == 0x012F_FF10,
        exchange(rm) & 0xF == rm,
        (read_status(r, rd) >> 28) & 0xF == 0xE,
        (read_status(r, rd) >> 25) & 7 == 0,
        read_status(r, rd) & 0x0FFF_FFF0 != 0x012F_FF10,
        (read_status(r, rd) >> 4) & 0xF == 0,
        read_status(r, rd) & 0x0190_0000 == 0x0100_0000,
        read_status(r, rd) & (1u32 << 22) != 0 <==> r == 1,
        read_status(r, rd) & (1u32 << 21) == 0,
        (read_status(r, rd) >> 12) & 0xF == rd,
        (write_status(r, fields, rm) >> 28) & 0xF == 0xE,
        (write_status(r, fields, rm) >> 25) & 7 == 0,
        write_status(r, fields, rm) & 0x0FFF_FFF0 != 0x012F_FF10,
        (write_status(r, fields, rm) >> 4) & 0xF == 0,
        write_status(r, fields, rm) & 0x0190_0000 == 0x0100_0000,
        write_status(r, fields, rm) & (1u32 << 22) != 0 <==> r == 1,
        write_status(r, fields, rm) & (1u32 << 21) != 0,
        write_status(r, fields, rm) & (1u32 << 25) == 0,
        write_status(r, fields, rm) & (1u32 << 16) != 0 <==> fields & 1 != 0,
        write_status(r, fields, rm) & (1u32 << 17) != 0 <==> fields & 2 != 0,
        write_status(r, fields, rm) & (1u32 << 18) != 0 <==> fields & 4 != 0,
        write_status(r, fields, rm) & (1u32 << 19) != 0 <==> fields & 8 != 0,
        write_status(r, fields, rm) & 0xF == rm,
        0u32 & 9 != 9,
        0u32 != 9,
        fields == 8 ==> fields & 1 == 0 && fields & 2 == 0 && fields & 4 == 0 && fields & 8 != 0,
        fields == 9 ==> fields & 1 != 0 && fields & 2 == 0 && fields & 4 == 0 && fields & 8 != 0,
{
}

/// A branch goes to its own address plus eight plus four times its signed
/// offset, and with a link leaves the address of the next instruction in
/// r14.
#[verifier::rlimit(60)]
pub proof fn law_branch<M: Memory>(cpu: CpuView, m: M::State, link: u32, offset: int)
    requires
        cpu.regs.wf(),
        !cpu.thumb(),
        link < 2,
        -0x80_0000 <= offset < 0x80_0000,
        cpu.regs.gpr[15] % 4 == 0,
    ensures
        ({
            let after = cpu.execute_arm::<M>(m, branch(link, (offset % 0x100_0000) as u32)).0;
            &&& after.regs.gpr[15] == (cpu.next_pc() + 8 + 4 * offset) % 0x1_0000_0000
            &&& after.flushed
            &&& link == 1 ==> after.regs.gpr[14] == (cpu.next_pc() + 4) % 0x1_0000_0000
            &&& link == 0 ==> after.regs.gpr[14] == cpu.regs.gpr[14]
            &&& forall|i: int| 0 <= i < 14 ==> after.regs.gpr[i] == cpu.regs.gpr[i]
            &&& after.regs.cpsr == cpu.regs.cpsr
        }),
{
    reveal(CpuView::execute_arm);
    let field = (offset % 0x100_0000) as u32;
    lemma_branch_fields(link, field, 0, 0, 0, 0);
    let pc = cpu.regs.gpr[15];
    let delta = if field < 0x80_0000 {
        (4 * field) as u32
    } else {
        (4 * field + 0xFC00_0000) as u32
    };
    assert(pc.wrapping_add(delta) == (pc + 4 * offset) % 0x1_0000_0000);
    let target = pc.wrapping_add(delta);
    assert(target % 4 == 0);
    lemma_aligned_word(target);
}

/// `BX` goes to the register's value and changes to THUMB or back by its
/// lowest bit.
#[verifier::rlimit(60)]
pub proof fn law_branch_exchange<M: Memory>(cpu: CpuView, m: M::State, rm: u32)
    requires
        cpu.regs.wf(),
        rm < 16,
    ensures
        ({
            let after = cpu.execute_arm::<M>(m, exchange(rm)).0;
            let target = cpu.regs.gpr[rm as int];
            &&& after.thumb() == (target % 2 == 1)
            &&& after.regs.gpr[15] == if target % 2 == 1 {
                target - 1
            } else {
                target - target % 4
            }
            &&& after.flushed
            &&& forall|i: int| 0 <= i < 15 ==> after.regs.gpr[i] == cpu.regs.gpr[i]
        }),
{
    reveal(CpuView::execute_arm);
    lemma_branch_fields(0, 0, rm, 0, 0, 0);
    lemma_aligned_word(cpu.regs.gpr[rm as int]);
    lemma_thumb_bit(cpu.regs.cpsr.0);
    crate::bits::constant_facts();
}

pub(crate) proof fn lemma_thumb_bit(v: u32)
    ensures
        (v | (1u32 << 5)) & (1u32 << 5) != 0,
        (v & !(1u32 << 5)) & (1u32 << 5) == 0,
{
    crate::bits::word_facts(v, 0, 0, 0);
}

/// The status is read as it is, and the flags of a register are written to
/// its highest byte, and to nothing else, in every mode.
#[verifier::rlimit(60)]
pub proof fn law_status_transfers<M: Memory>(cpu: CpuView, m: M::State, rd: u32, rm: u32)
    requires
        cpu.regs.wf(),
        rd < 15,
        rm < 16,
    ensures
        cpu.execute_arm::<M>(m, read_status(0, rd)).0 == with_register(
            cpu,
            rd as int,
            cpu.regs.cpsr.0,
        ),
        cpu.regs.spsr() matches Some(saved) ==> cpu.execute_arm::<M>(m, read_status(1, rd)).0
            == with_register(cpu, rd as int, saved.0),
        ({
            let after = cpu.execute_arm::<M>(m, write_status(0, 8, rm)).0;
            let status = after.regs.cpsr.0;
            &&& status as int / 0x100_0000 == cpu.regs.gpr[rm as int] as int / 0x100_0000
            &&& status % 0x100_0000 == cpu.regs.cpsr.0 % 0x100_0000
            &&& after == with_status(cpu, status)
        }),
{
    reveal(CpuView::execute_arm);
    lemma_branch_fields(0, 0, 0, rd, 0, 0);
    lemma_branch_fields(0, 0, 0, rd, 1, 0);
    lemma_branch_fields(0, 0, rm, 0, 0, 8);
    let (old_status, operand) = (cpu.regs.cpsr.0, cpu.regs.gpr[rm as int]);
    lemma_flag_byte(old_status, operand);
    let cpsr = crate::cpu::registers::Cpsr(
        (old_status & !0xFF00_0000u32) | (operand & 0xFF00_0000),
    );
    crate::cpu::laws::law_set_cpsr(cpu.regs, cpsr);
}

proof fn lemma_flag_byte(v: u32, w: u32)
    ensures
        ((v & !0xFF00_0000u32) | (w & 0xFF00_0000)) / 0x100_0000 == w / 0x100_0000,
        ((v & !0xFF00_0000u32) | (w & 0xFF00_0000)) % 0x100_0000 == v % 0x100_0000,
        ((v & !0xFF00_0000u32) | (w & 0xFF00_0000)) & 0x1F == v & 0x1F,
        0u32 | 0 | 0 | 0xFF00_0000 == 0xFF00_0000u32,
        0xFF00_0000u32 & 0xFF00_0000 == 0xFF00_0000,
        0xFF00_0000u32 & !(1u32 << 5) == 0xFF00_0000,
{
    crate::bits::word_facts(v, w, 0, 0);
}

/// What `BX` comes to.
pub(crate) proof fn lemma_exchanged<M: Memory>(cpu: CpuView, m: M::State, rm: u32)
    requires
        cpu.regs.wf(),
        rm < 16,
    ensures
        cpu.execute_arm::<M>(m, exchange(rm)).0 == cpu.branch_exchange(cpu.regs.gpr[rm as int]),
{
    reveal(CpuView::execute_arm);
    lemma_branch_fields(0, 0, rm, 0, 0, 0);
}

/// What loads and stores with an offset that is added first come to.
pub(crate) proof fn lemma_offset_transfer<M: Memory>(
    cpu: CpuView,
    m: M::State,
    b: u32,
    l: u32,
    rn: u32,
    rd: u32,
    offset: u32,
)
    requires
        cpu.regs.wf(),
        b < 2,
        l < 2,
        rn < 15,
        rd < 15,
        offset < 0x1000,
    ensures
        ({
            let at = cpu.regs.gpr[rn as int].wrapping_add(offset);
            let value = cpu.regs.gpr[rd as int];
            cpu.execute_arm::<M>(m, transfer(1, 1, b, 0, l, rn, rd, offset)) == if l == 0 {
                if b == 0 {
                    (cpu, M::stored32(m, at & !3u32, value), 0u32)
                } else {
                    (cpu, M::stored8(m, at, value as u8), 0u32)
                }
            } else {
                if b == 0 {
                    (
                        with_register(cpu, rd as int, word_value::<M>(m, at)),
                        M::loaded32(m, at & !3u32),
                        1u32,
                    )
                } else {
                    (
                        with_register(cpu, rd as int, M::value8(m, at) as u32),
                        M::loaded8(m, at),
                        1u32,
                    )
                }
            }
        }),
{
    reveal(CpuView::execute_arm);
    lemma_transfer_fields(1, 1, b, 0, l, rn, rd, offset, 1);
}

/// What halfword loads and stores with an offset that is added first come
/// to.
pub(crate) proof fn lemma_offset_half<M: Memory>(
    cpu: CpuView,
    m: M::State,
    l: u32,
    rn: u32,
    rd: u32,
    offset: u32,
)
    requires
        cpu.regs.wf(),
        l < 2,
        rn < 15,
        rd < 15,
        offset < 0x100,
    ensures
        ({
            let at = cpu.regs.gpr[rn as int].wrapping_add(offset);
            let value = cpu.regs.gpr[rd as int];
            cpu.execute_arm::<M>(m, half_transfer(1, 1, 0, l, rn, rd, 1, offset)) == if l == 0 {
                (cpu, M::stored16(m, at & !1u32, value as u16), 0u32)
            } else {
                (
                    with_register(cpu, rd as int, halfword_value::<M>(m, at)),
                    M::loaded16(m, at & !1u32),
                    1u32,
                )
            }
        }),
{
    reveal(CpuView::execute_arm);
    lemma_transfer_fields(1, 1, 0, 0, l, rn, rd, offset, 1);
}

/// The places of a block transfer: as many words as registers, from the
/// aligned base up or down, the base itself left out where it counts first;
/// an empty list moves r15 alone and the base by sixteen words. The base ends
/// as far away as the block is long.
#[verifier::rlimit(60)]
pub proof fn law_block_addresses(
    p: u32,
    u: u32,
    b: u32,
    w: u32,
    l: u32,
    rn: u32,
    high: u32,
    low: u32,
    base: u32,
)
    requires
        p < 2,
        u < 2,
        b < 2,
        w < 2,
        l < 2,
        rn < 16,
        high < 16,
        low < 0x1000,
        base % 4 == 0,
        0x100 <= base < 0xFFFF_FF00,
    ensures
        ({
            let list = (high << 12) | low;
            let block = block_of(block_transfer(p, u, b, w, l, rn, list), base);
            let span = if list == 0 {
                64
            } else {
                4 * list_size(list, 16)
            };
            &&& block.load == (l == 1)
            &&& block.rn == rn
            &&& block.list == if list == 0 {
                0x8000
            } else {
                list
            }
            &&& block.last == if u == 1 {
                base + span
            } else {
                base - span
            }
            &&& block.start == if u == 1 && p == 0 {
                base as int
            } else if u == 1 {
                base + 4
            } else if p == 0 {
                base - span + 4
            } else {
                base - span
            }
            &&& block.writeback == (w == 1 || list == 0)
            &&& block.user == (b == 1 && !(l == 1 && listed(block.list, 15)))
            &&& block.restore == (b == 1 && l == 1 && listed(block.list, 15))
        }),
{
    lemma_transfer_fields(p, u, b, w, l, rn, high, low, 1);
    lemma_aligned_word(base);
    let list = (high << 12) | low;
    lemma_at_most(list, 16);
}

proof fn lemma_at_most(list: u32, upto: int)
    requires
        0 <= upto,
    ensures
        0 <= list_size(list, upto) <= upto,
    decreases upto,
{
    if upto > 0 {
        lemma_at_most(list, upto - 1);
    }
}

/// A software interrupt is called by the highest byte of its comment: the call
/// is noted where the BIOS is emulated, and otherwise taken as an exception.
#[verifier::rlimit(60)]
pub proof fn law_software_interrupt<M: Memory>(cpu: CpuView, m: M::State, comment: u32)
    requires
        cpu.regs.wf(),
        comment < 0x100_0000,
    ensures
        ({
            let after = cpu.execute_arm::<M>(m, 0xEF00_0000u32 | comment).0;
            &&& cpu.hle_swi ==> after == (CpuView {
                pending_swi: Some((comment >> 16) as u8),
                ..cpu
            })
            &&& !cpu.hle_swi ==> after == cpu.enter_exception(
                crate::cpu::Exception::SoftwareInterrupt,
            )
        }),
{
    reveal(CpuView::execute_arm);
    lemma_branch_fields(0, comment, 0, 0, 0, 0);
}

/// In a mode other than User the low byte can be written too, and with it the
/// mode and the interrupt masks, but never the instruction set.
#[verifier::rlimit(60)]
pub proof fn law_status_control<M: Memory>(cpu: CpuView, m: M::State, rm: u32)
    requires
        cpu.regs.wf(),
        rm < 16,
        !(cpu.regs.mode() is User),
        crate::cpu::registers::mode_of(cpu.regs.gpr[rm as int]) is Some,
    ensures
        cpu.execute_arm::<M>(m, write_status(0, 9, rm)).0.regs.cpsr.0 == (cpu.regs.cpsr.0
            & !0xFF00_00DFu32) | (cpu.regs.gpr[rm as int] & 0xFF00_00DF),
{
    reveal(CpuView::execute_arm);
    lemma_branch_fields(0, 0, rm, 0, 0, 9);
    crate::bits::constant_facts();
    let (old_status, operand) = (cpu.regs.cpsr.0, cpu.regs.gpr[rm as int]);
    crate::bits::word_facts(old_status, operand, 0, 0);
    let cpsr = crate::cpu::registers::Cpsr(
        (old_status & !0xFF00_00DFu32) | (operand & 0xFF00_00DF),
    );
    crate::cpu::laws::law_set_cpsr(cpu.regs, cpsr);
}

/// The bytes of a word that hold more than copies of its sign: with `signed`
/// those of a negative number too, else its bytes without leading zeros. At
/// least one.
pub open spec fn significant_bytes(v: u32, signed: bool) -> int {
    let negated = 0xFFFF_FFFF - v;
    if v < 0x100 || (signed && negated < 0x100) {
        1
    } else if v < 0x1_0000 || (signed && negated < 0x1_0000) {
        2
    } else if v < 0x100_0000 || (signed && negated < 0x100_0000) {
        3
    } else {
        4
    }
}

proof fn lemma_significant(v: u32, signed: bool)
    ensures
        crate::cpu::alu::multiplier_bytes(v, signed) == significant_bytes(v, signed),
{
    crate::bits::control_facts(v);
    crate::bits::control_facts(0xFFFF_FFFF);
}

/// A multiply takes a cycle for every significant byte of its multiplier, one
/// more where it accumulates and one more where it is long.
#[verifier::rlimit(60)]
pub proof fn law_multiply_time<M: Memory>(
    cpu: CpuView,
    m: M::State,
    g: u32,
    a: u32,
    rd: u32,
    rn: u32,
    rs: u32,
    rm: u32,
)
    requires
        cpu.regs.wf(),
        g < 2,
        a < 2,
        rd < 16,
        rn < 16,
        rs < 16,
        rm < 16,
    ensures
        cpu.execute_arm::<M>(m, multiply(a, 0, rd, rn, rs, rm)).2 == significant_bytes(
            cpu.regs.gpr[rs as int],
            true,
        ) + a,
        cpu.execute_arm::<M>(m, long_multiply(g, a, rd, rn, rs, rm)).2 == significant_bytes(
            cpu.regs.gpr[rs as int],
            g == 1,
        ) + a + 1,
{
    reveal(CpuView::execute_arm);
    lemma_multiply_fields(g, a, 0, rd, rn, rs, rm);
    lemma_significant(cpu.regs.gpr[rs as int], true);
    lemma_significant(cpu.regs.gpr[rs as int], g == 1);
}

proof fn lemma_low_list(list: u32)
    requires
        list < 0x100,
    ensures
        list_size(list, 16) == list_size(list, 8),
        forall|reg: int| 8 <= reg < 16 ==> !#[trigger] listed(list, reg),
{
    lemma_transfer_fields(0, 0, 0, 0, 0, 0, 0, list, 1);
    assert forall|reg: int| 8 <= reg < 16 implies !#[trigger] listed(list, reg) by {
        assert(reg == 8 || reg == 9 || reg == 10 || reg == 11 || reg == 12 || reg == 13 || reg == 14
            || reg == 15);
    }
    assert(list_size(list, 9) == list_size(list, 8));
    assert(list_size(list, 10) == list_size(list, 9));
    assert(list_size(list, 11) == list_size(list, 10));
    assert(list_size(list, 12) == list_size(list, 11));
    assert(list_size(list, 13) == list_size(list, 12));
    assert(list_size(list, 14) == list_size(list, 13));
    assert(list_size(list, 15) == list_size(list, 14));
}

proof fn lemma_no_more_moves<M: Memory>(cpu: CpuView, m: M::State, b: Block, upto: int)
    requires
        8 <= upto <= 16,
        forall|reg: int| 8 <= reg < 16 ==> !#[trigger] listed(b.list, reg),
    ensures
        cpu.block_loads::<M>(m, b, upto) == cpu.block_loads::<M>(m, b, 8),
        cpu.block_stores::<M>(m, b, true, upto) == cpu.block_stores::<M>(m, b, true, 8),
    decreases upto,
{
    if upto > 8 {
        assert(!listed(b.list, upto - 1));
        lemma_no_more_moves::<M>(cpu, m, b, upto - 1);
    }
}

/// A block transfer of low registers upwards from an aligned base.
pub(crate) proof fn lemma_low_block<M: Memory>(
    cpu: CpuView,
    m: M::State,
    l: u32,
    rn: u32,
    list: u32,
    b: Block,
)
    requires
        cpu.regs.wf(),
        l < 2,
        rn < 8,
        0 < list < 0x100,
        cpu.regs.gpr[rn as int] % 4 == 0,
        b == (Block {
            load: l == 1,
            list,
            empty: false,
            rn: rn as int,
            writeback: true,
            user: false,
            restore: false,
            start: cpu.regs.gpr[rn as int],
            last: cpu.regs.gpr[rn as int].wrapping_add((4 * list_size(list, 8)) as u32),
        }),
    ensures
        cpu.execute_arm::<M>(m, block_transfer(0, 1, 0, 1, l, rn, list)) == if l == 1 {
            let (loaded, mem) = cpu.block_loads::<M>(m, b, 8);
            (
                if listed(list, rn as int) {
                    loaded
                } else {
                    loaded.set(rn as int, b.last)
                },
                mem,
                1u32,
            )
        } else {
            (cpu.set(rn as int, b.last), cpu.block_stores::<M>(m, b, true, 8), 0u32)
        },
{
    reveal(CpuView::execute_arm);
    lemma_transfer_fields(0, 1, 0, 1, l, rn, 0, list, 1);
    lemma_aligned_word(cpu.regs.gpr[rn as int]);
    lemma_low_list(list);
    assert(block_of(block_transfer(0, 1, 0, 1, l, rn, list), cpu.regs.gpr[rn as int]) == b);
    lemma_no_more_moves::<M>(cpu, m, b, 16);
}

} // verus!
