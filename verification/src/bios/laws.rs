//! What holds of the BIOS calls.

use vstd::arithmetic::div_mod::{lemma_fundamental_div_mod, lemma_mod_bound};
use vstd::prelude::*;

use crate::bios::call;
use crate::bios::decompress::{
    cut, lemma_back_copied_len, lz77_run, lz77_token, missing, reference_distance,
    reference_length, Unpacking,
};
use crate::bios::{absolute, is_root, quotient_remainder, root_of, serviced};
use crate::cpu::CpuView;
use crate::memory::Memory;

verus! {

/// `Div` divides as integers do, towards zero: quotient and remainder make
/// up the numerator again, and the remainder is smaller than the denominator
/// and has the sign of the numerator.
pub proof fn law_division(n: int, d: int)
    requires
        d != 0,
    ensures
        ({
            let (q, r) = quotient_remainder(n, d);
            &&& q * d + r == n
            &&& absolute(r) < absolute(d)
            &&& r == 0 || (r < 0) == (n < 0)
        }),
{
    let (q, r) = quotient_remainder(n, d);
    let (un, ud) = (absolute(n), absolute(d));
    lemma_fundamental_div_mod(un, ud);
    lemma_mod_bound(un, ud);
    let whole = un / ud;
    assert(ud * whole == whole * ud) by (nonlinear_arith);
    assert((-whole) * d == -(whole * d) && whole * (-d) == -(whole * d)) by (nonlinear_arith);
}

/// Every number has a square root, rounded down.
proof fn lemma_root_exists(n: nat) -> (root: nat)
    ensures
        is_root(root as int, n as int),
        root <= n,
    decreases n,
{
    if n == 0 {
        assert(is_root(0, 0));
        0
    } else {
        let below = lemma_root_exists((n - 1) as nat);
        let next = below + 1;
        assert((next + 1) * (next + 1) == next * next + 2 * next + 1) by (nonlinear_arith);
        if next * next <= n {
            next
        } else {
            below
        }
    }
}

/// `Sqrt` gives the square root, rounded down.
pub proof fn law_square_root(n: u32)
    ensures
        is_root(root_of(n) as int, n as int),
{
    let root = lemma_root_exists(n as nat);
    assert(is_root((root as u32) as int, n as int));
}

/// What `Div` leaves in r0, r1 and r3 for numerator `num` and denominator
/// `den`: a division towards zero in 32 bits, whose one overflow wraps.
pub open spec fn is_division(num: i32, den: i32, r0: u32, r1: u32, r3: u32) -> bool {
    let (q, r) = (r0 as i32, r1 as i32);
    &&& den == 0 ==> r == num && q == if num < 0 {
        -1i32
    } else {
        1
    }
    &&& den != 0 ==> {
        &&& q.wrapping_mul(den).wrapping_add(r) == num
        &&& absolute(r as int) < absolute(den as int)
        &&& r == 0 || (r < 0) == (num < 0)
    }
    &&& r3 == absolute(q as int)
}

/// Signed numbers pass through registers unharmed, and the one quotient that
/// does not fit 32 bits wraps to the least number.
proof fn lemma_register_casts(x: i32, wide: i64)
    by (bit_vector)
    requires
        wide == 0x8000_0000i64,
    ensures
        (x as u32) as i32 == x,
        wide as i32 == -0x8000_0000i32,
{
}

/// The quotient and remainder of 32-bit numbers, back in 32 bits.
proof fn lemma_narrow_division(num: i32, den: i32)
    ensures
        ({
            let (q, r) = quotient_remainder(num as int, den as int);
            is_division(num, den, (q as i32) as u32, (r as i32) as u32, absolute(q) as u32)
        }),
{
    let (q, r) = quotient_remainder(num as int, den as int);
    lemma_register_casts(q as i32, 0x8000_0000);
    lemma_register_casts(r as i32, 0x8000_0000);
    if den != 0 {
        law_division(num as int, den as int);
        let (un, ud) = (absolute(num as int), absolute(den as int));
        lemma_fundamental_div_mod(un, ud);
        lemma_mod_bound(un, ud);
        assert(0 <= un / ud <= un) by (nonlinear_arith)
            requires
                un >= 0,
                ud >= 1,
        ;
        if num == i32::MIN && den == -1 {
            assert(un / ud == 0x8000_0000) by (nonlinear_arith)
                requires
                    un == 0x8000_0000,
                    ud == 1,
            ;
            assert(q == 0x8000_0000 && r == 0);
            assert(q as i32 == (0x8000_0000i64) as i32);
            assert(i32::MIN * -1i32 == 0x8000_0000);
            assert(0x8000_0000int % 0x1_0000_0000 == 0x8000_0000);
            assert(i32::MIN.wrapping_mul(-1i32) == i32::MIN);
        } else {
            assert(un / ud <= 0x7FFF_FFFF || (un / ud == 0x8000_0000 && num == i32::MIN && den
                == 1)) by {
                if un == 0x8000_0000 && ud >= 2 {
                    assert(un / ud <= 0x4000_0000) by (nonlinear_arith)
                        requires
                            un == 0x8000_0000,
                            ud >= 2,
                    ;
                }
            }
            assert(i32::MIN <= q <= i32::MAX);
            assert(i32::MIN <= r <= i32::MAX);
            assert(q * den == num - r);
        }
    }
}

/// `Div` and `DivArm` differ only in the order of their arguments: both leave
/// the quotient in r0, the remainder in r1 and the quotient's magnitude in r3,
/// and change nothing else.
pub proof fn law_div_and_div_arm<M: Memory>(cpu: CpuView, s: M::State, a: u32, b: u32)
    requires
        cpu.regs.gpr.len() == 16,
        cpu.regs.gpr[0] == a,
        cpu.regs.gpr[1] == b,
    ensures
        ({
            let swapped = cpu.set(0, b).set(1, a);
            let (arm, s1, _) = serviced::<M>(call::DIV_ARM, cpu, s);
            let (div, s2, _) = serviced::<M>(call::DIV, swapped, s);
            let g = arm.regs.gpr;
            &&& arm == div
            &&& arm == cpu.set(0, g[0]).set(1, g[1]).set(3, g[3])
            &&& is_division(b as i32, a as i32, g[0], g[1], g[3])
            &&& s1 == s
            &&& s2 == s
        }),
{
    reveal(serviced);
    let swapped = cpu.set(0, b).set(1, a);
    lemma_narrow_division(b as i32, a as i32);
    let arm = serviced::<M>(call::DIV_ARM, cpu, s).0;
    let div = serviced::<M>(call::DIV, swapped, s).0;
    let g = arm.regs.gpr;
    assert(arm.regs.gpr =~= div.regs.gpr);
    assert(g =~= cpu.set(0, g[0]).set(1, g[1]).set(3, g[3]).regs.gpr);
}

proof fn lemma_lz77_reaches<M: Memory>(
    st: Unpacking<M::State>,
    size: int,
    flags: u8,
    left: int,
)
    ensures
        lz77_run::<M>(st, size, flags, left).out.len() >= size,
    decreases
            missing(st.out, size),
            if left <= 0 {
                1int
            } else {
                0
            },
{
    if st.out.len() < size {
        if left <= 0 {
            lemma_lz77_reaches::<M>(
                Unpacking {
                    mem: M::loaded8(st.mem, st.src),
                    src: st.src.wrapping_add(1),
                    out: st.out,
                },
                size,
                M::value8(st.mem, st.src),
                8,
            );
        } else {
            let b0 = M::value8(st.mem, st.src);
            let b1 = M::value8(M::loaded8(st.mem, st.src), st.src.wrapping_add(1));
            lemma_back_copied_len(st.out, reference_distance(b0, b1), reference_length(b0));
            let next = lz77_token::<M>(st, (flags >> ((left - 1) as u8)) & 1 != 0);
            assert(next.out.len() > st.out.len());
            lemma_lz77_reaches::<M>(next, size, flags, left - 1);
        }
    }
}

/// LZ77 decompression gives exactly the size that the header declares.
pub proof fn law_lz77_gives_the_declared_size<M: Memory>(st: Unpacking<M::State>, size: nat)
    ensures
        cut(lz77_run::<M>(st, size as int, 0, 0).out, size as int).len() == size,
{
    lemma_lz77_reaches::<M>(st, size as int, 0, 0);
}

} // verus!
