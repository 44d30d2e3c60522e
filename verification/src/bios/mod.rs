//! High-level emulation of the BIOS system calls.
//!
//! The GBA BIOS is copyrighted and cannot ship with the emulator. When no
//! image is supplied, `SWI` instructions are intercepted and the most
//! common calls are serviced here in software. Games that rely on obscure
//! calls (or on BIOS memory contents) still need the real image.

use vstd::prelude::*;

pub mod call;
pub mod call_laws;
pub mod copy;
pub mod decompress;
pub mod hidden;
pub mod kept;
pub mod laws;
pub mod trig;
pub mod trig_laws;
pub mod unpack_laws;

use crate::cpu::{Cpu, CpuView};
use crate::memory::interrupt::interrupt_mask;
use crate::memory::io::{reg, Interrupt};
use crate::memory::Memory;
use copy::{
    bg_affine_memory, bg_affine_set, cpu_fast_set, cpu_fast_set_memory, cpu_set, cpu_set_memory,
    obj_affine_memory, obj_affine_set, ram_reset, register_ram_reset,
};
use decompress::{
    bit_unpack, bit_unpacked, lz77_uncomp, lz77_uncompressed, rl_uncomp, rl_uncompressed,
};
use trig::{arctan2, arctan2_value};

verus! {

/// IWRAM word the BIOS uses to communicate serviced interrupts to
/// `IntrWait`: the game's IRQ handler ORs the flags it handled into it.
pub const INTR_CHECK_FLAGS: u32 = 0x0300_7FF8;

/// Minimal replacement for the BIOS's exception vectors, installed when
/// no BIOS image is loaded. The IRQ vector mirrors the real entry code:
/// save the caller-saved registers, jump to the handler the game placed
/// at `0x03007FFC`, restore and return.
///
/// ```text
/// 0x18: b     0x20
/// 0x20: stmfd sp!, {r0-r3, r12, lr}
/// 0x24: mov   r0, #0x04000000
/// 0x28: add   lr, pc, #0          ; lr = 0x30
/// 0x2C: ldr   pc, [r0, #-4]       ; [0x03FFFFFC] = [0x03007FFC]
/// 0x30: ldmfd sp!, {r0-r3, r12, lr}
/// 0x34: subs  pc, lr, #4
/// ```
pub const IRQ_STUB: [(u32, u32); 7] = [
    (0x18, 0xEA00_0000),
    (0x20, 0xE92D_500F),
    (0x24, 0xE3A0_0301),
    (0x28, 0xE28F_E000),
    (0x2C, 0xE510_F004),
    (0x30, 0xE8BD_500F),
    (0x34, 0xE25E_F004),
];

/// Address of the game's IRQ handler pointer, read by the BIOS.
pub const IRQ_HANDLER_POINTER: u32 = 0x0300_7FFC;

/// What `GetBiosChecksum` returns.
pub const BIOS_CHECKSUM: u32 = 0xBAAE_187F;

/// Outcome of servicing a call that the caller must act on.
#[derive(Debug, Clone, Copy, PartialEq, Eq, Structural)]
pub enum Outcome {
    /// The call completed; continue executing.
    Done,
    /// The CPU should halt until an interrupt matching the mask is
    /// flagged in [`INTR_CHECK_FLAGS`] (`IntrWait` semantics).
    WaitForInterrupt {
        /// `IF`-style bit mask to wait for.
        mask: u16,
    },
    /// The call is not emulated; the caller may log it.
    Unsupported,
}

/// The magnitude of `n`.
pub open spec fn absolute(n: int) -> int {
    if n < 0 {
        -n
    } else {
        n
    }
}

/// The quotient and remainder of a division that rounds towards zero. A
/// division by zero yields ±1 and the numerator.
pub open spec fn quotient_remainder(num: int, den: int) -> (int, int) {
    if den == 0 {
        (
            if num < 0 {
                -1
            } else {
                1
            },
            num,
        )
    } else {
        let q = absolute(num) / absolute(den);
        let r = absolute(num) % absolute(den);
        (
            if (num < 0) != (den < 0) {
                -q
            } else {
                q
            },
            if num < 0 {
                -r
            } else {
                r
            },
        )
    }
}

/// The state after `Div`: quotient, remainder and the magnitude of the
/// quotient in r0, r1 and r3.
pub open spec fn divided(cpu: CpuView, num: u32, den: u32) -> CpuView {
    let (q, r) = quotient_remainder((num as i32) as int, (den as i32) as int);
    cpu.set(0, (q as i32) as u32).set(1, (r as i32) as u32).set(3, absolute(q) as u32)
}

/// Divides as the BIOS does.
fn div(num: u32, den: u32) -> (out: (i32, i32, u32))
    ensures
        ({
            let (q, r) = quotient_remainder((num as i32) as int, (den as i32) as int);
            out == (q as i32, r as i32, absolute(q) as u32)
        }),
{
    let n: i64 = num as i32 as i64;
    let d: i64 = den as i32 as i64;
    if d == 0 {
        // Hardware yields ±1 and the numerator; not a crash.
        let quot: i32 = if n < 0 {
            -1
        } else {
            1
        };
        return (quot, num as i32, 1);
    }
    let un: u64 = (if n < 0 {
        -n
    } else {
        n
    }) as u64;
    let ud: u64 = (if d < 0 {
        -d
    } else {
        d
    }) as u64;
    let uq: u64 = un / ud;
    let ur: u64 = un % ud;
    proof {
        vstd::arithmetic::div_mod::lemma_div_is_ordered_by_denominator(un as int, 1, ud as int);
    }
    let q: i64 = if (n < 0) != (d < 0) {
        -(uq as i64)
    } else {
        uq as i64
    };
    let r: i64 = if n < 0 {
        -(ur as i64)
    } else {
        ur as i64
    };
    (q as i32, r as i32, uq as u32)
}

/// Whether `root` is the integer square root of `n`.
pub open spec fn is_root(root: int, n: int) -> bool {
    0 <= root && root * root <= n < (root + 1) * (root + 1)
}

/// The integer square root of `n`.
pub open spec fn root_of(n: u32) -> u32 {
    choose|root: u32| is_root(root as int, n as int)
}

/// There is at most one integer square root.
proof fn lemma_root_unique(a: int, b: int, n: int)
    requires
        is_root(a, n),
        is_root(b, n),
    ensures
        a == b,
{
    if a < b {
        assert((a + 1) * (a + 1) <= b * b) by (nonlinear_arith)
            requires
                0 <= a,
                a + 1 <= b,
        ;
    } else if b < a {
        assert((b + 1) * (b + 1) <= a * a) by (nonlinear_arith)
            requires
                0 <= b,
                b + 1 <= a,
        ;
    }
}

/// `Sqrt`: the integer square root, by bisection.
fn isqrt(n: u32) -> (root: u32)
    ensures
        root == root_of(n),
        is_root(root as int, n as int),
{
    let mut low: u64 = 0;
    let mut high: u64 = 0x1_0000;
    while high - low > 1
        invariant
            low < high <= 0x1_0000,
            low * low <= n,
            n < high * high,
        decreases high - low,
    {
        let mid: u64 = (low + high) / 2;
        assert(mid * mid <= 0xFFFF_FFFF_FFFF) by (nonlinear_arith)
            requires
                0 <= mid <= 0x1_0000,
        ;
        if mid * mid <= n as u64 {
            low = mid;
        } else {
            high = mid;
        }
    }
    proof {
        let root = low as u32;
        assert(high == low + 1);
        assert(is_root(root as int, n as int));
        lemma_root_unique(root as int, root_of(n) as int, n as int);
    }
    low as u32
}

/// The state and memory after the wait calls: old flags are discarded on
/// request, interrupts are enabled and the CPU halts.
pub open spec fn waiting<M: Memory>(
    cpu: CpuView,
    s: M::State,
    discard: bool,
    mask: u16,
) -> (CpuView, M::State, Outcome) {
    let cleared = if discard {
        M::stored16(
            M::loaded16(s, INTR_CHECK_FLAGS),
            INTR_CHECK_FLAGS,
            M::value16(s, INTR_CHECK_FLAGS) & !mask,
        )
    } else {
        s
    };
    (
        CpuView { halted: true, ..cpu },
        M::stored16(cleared, 0x0400_0208, 1),
        Outcome::WaitForInterrupt { mask },
    )
}

/// The state, memory and outcome after BIOS call `number`.
#[verifier::opaque]
pub open spec fn serviced<M: Memory>(number: u8, cpu: CpuView, s: M::State) -> (
    CpuView,
    M::State,
    Outcome,
) {
    let r0 = cpu.regs.gpr[0];
    let r1 = cpu.regs.gpr[1];
    let r2 = cpu.regs.gpr[2];
    let r3 = cpu.regs.gpr[3];
    if number == call::REGISTER_RAM_RESET {
        (cpu, ram_reset::<M>(s, r0 as u8), Outcome::Done)
    } else if number == call::HALT || number == call::STOP {
        (CpuView { halted: true, ..cpu }, s, Outcome::Done)
    } else if number == call::SOUND_BIAS {
        (cpu, s, Outcome::Done)
    } else if number == call::INTR_WAIT {
        waiting::<M>(cpu, s, r0 != 0, r1 as u16)
    } else if number == call::VBLANK_INTR_WAIT {
        waiting::<M>(cpu, s, true, interrupt_mask(Interrupt::VBlank))
    } else if number == call::DIV {
        (divided(cpu, r0, r1), s, Outcome::Done)
    } else if number == call::DIV_ARM {
        (divided(cpu, r1, r0), s, Outcome::Done)
    } else if number == call::SQRT {
        (cpu.set(0, root_of(r0)), s, Outcome::Done)
    } else if number == call::ARCTAN2 {
        (cpu.set(0, arctan2_value(r0 as u16, r1 as u16)), s, Outcome::Done)
    } else if number == call::CPU_SET {
        (cpu, cpu_set_memory::<M>(s, r0, r1, r2), Outcome::Done)
    } else if number == call::CPU_FAST_SET {
        (cpu, cpu_fast_set_memory::<M>(s, r0, r1, r2), Outcome::Done)
    } else if number == call::GET_BIOS_CHECKSUM {
        (cpu.set(0, BIOS_CHECKSUM), s, Outcome::Done)
    } else if number == call::LZ77_UNCOMP_WRAM {
        (cpu, lz77_uncompressed::<M>(s, r0, r1, false), Outcome::Done)
    } else if number == call::LZ77_UNCOMP_VRAM {
        (cpu, lz77_uncompressed::<M>(s, r0, r1, true), Outcome::Done)
    } else if number == call::RL_UNCOMP_WRAM {
        (cpu, rl_uncompressed::<M>(s, r0, r1, false), Outcome::Done)
    } else if number == call::RL_UNCOMP_VRAM {
        (cpu, rl_uncompressed::<M>(s, r0, r1, true), Outcome::Done)
    } else if number == call::BIT_UNPACK {
        (cpu, bit_unpacked::<M>(s, r0, r1, r2), Outcome::Done)
    } else if number == call::BG_AFFINE_SET {
        (cpu, bg_affine_memory::<M>(s, r0, r1, r2 as int), Outcome::Done)
    } else if number == call::OBJ_AFFINE_SET {
        (cpu, obj_affine_memory::<M>(s, r0, r1, r2 as int, r3), Outcome::Done)
    } else {
        (cpu, s, Outcome::Unsupported)
    }
}

/// Services a wait call.
fn wait<M: Memory>(cpu: &mut Cpu, mem: &mut M, discard: bool, mask: u16) -> (outcome: Outcome)
    requires
        old(cpu).wf(),
        old(mem).wf(),
    ensures
        final(cpu).wf(),
        final(mem).wf(),
        (final(cpu)@, final(mem).state(), outcome) == waiting::<M>(
            old(cpu)@,
            old(mem).state(),
            discard,
            mask,
        ),
{
    if discard {
        let flags: u16 = mem.read16(INTR_CHECK_FLAGS);
        mem.write16(INTR_CHECK_FLAGS, flags & !mask);
    }
    // Wait calls require the interrupt to be enabled; the real
    // BIOS forces IME on.
    mem.write16(0x0400_0000 + reg::IME, 1);
    cpu.halted = true;
    Outcome::WaitForInterrupt { mask }
}

/// Services BIOS call `number` with the CPU's current registers.
pub fn service<M: Memory>(number: u8, cpu: &mut Cpu, mem: &mut M) -> (outcome: Outcome)
    requires
        old(cpu).wf(),
        old(mem).wf(),
    ensures
        final(cpu).wf(),
        final(mem).wf(),
        (final(cpu)@, final(mem).state(), outcome) == serviced::<M>(
            number,
            old(cpu)@,
            old(mem).state(),
        ),
{
    proof {
        reveal(serviced);
    }
    let r0: u32 = cpu.regs.get(0);
    let r1: u32 = cpu.regs.get(1);
    let r2: u32 = cpu.regs.get(2);
    let r3: u32 = cpu.regs.get(3);
    match number {
        call::REGISTER_RAM_RESET => {
            register_ram_reset(mem, r0 as u8);
            Outcome::Done
        },
        call::HALT | call::STOP => {
            cpu.halted = true;
            Outcome::Done
        },
        call::SOUND_BIAS => Outcome::Done,
        call::INTR_WAIT => wait(cpu, mem, r0 != 0, r1 as u16),
        call::VBLANK_INTR_WAIT => wait(cpu, mem, true, Interrupt::VBlank.mask()),
        call::DIV | call::DIV_ARM => {
            let (num, den) = if number == call::DIV {
                (r0, r1)
            } else {
                (r1, r0)
            };
            let (quot, rem, abs) = div(num, den);
            cpu.regs.set(0, quot as u32);
            cpu.regs.set(1, rem as u32);
            cpu.regs.set(3, abs);
            Outcome::Done
        },
        call::SQRT => {
            cpu.regs.set(0, isqrt(r0));
            Outcome::Done
        },
        call::ARCTAN2 => {
            cpu.regs.set(0, arctan2(r0 as u16, r1 as u16));
            Outcome::Done
        },
        call::CPU_SET => {
            cpu_set(mem, r0, r1, r2);
            Outcome::Done
        },
        call::CPU_FAST_SET => {
            cpu_fast_set(mem, r0, r1, r2);
            Outcome::Done
        },
        call::GET_BIOS_CHECKSUM => {
            cpu.regs.set(0, BIOS_CHECKSUM);
            Outcome::Done
        },
        call::LZ77_UNCOMP_WRAM => {
            lz77_uncomp(mem, r0, r1, false);
            Outcome::Done
        },
        call::LZ77_UNCOMP_VRAM => {
            lz77_uncomp(mem, r0, r1, true);
            Outcome::Done
        },
        call::RL_UNCOMP_WRAM => {
            rl_uncomp(mem, r0, r1, false);
            Outcome::Done
        },
        call::RL_UNCOMP_VRAM => {
            rl_uncomp(mem, r0, r1, true);
            Outcome::Done
        },
        call::BIT_UNPACK => {
            bit_unpack(mem, r0, r1, r2);
            Outcome::Done
        },
        call::BG_AFFINE_SET => {
            bg_affine_set(mem, r0, r1, r2);
            Outcome::Done
        },
        call::OBJ_AFFINE_SET => {
            obj_affine_set(mem, r0, r1, r2, r3);
            Outcome::Done
        },
        _ => Outcome::Unsupported,
    }
}

} // verus!
