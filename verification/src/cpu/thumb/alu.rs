//! THUMB register/immediate arithmetic: formats 1–5, 12 and 13.

use vstd::prelude::*;

use crate::cpu::alu::{
    add_with_carry, multiplier_bytes, multiply_cycles, shift_imm, shift_of, shift_reg, shifted_imm,
    shifted_reg, sum_with_flags, ShiftType,
};
use crate::cpu::registers::{Cpsr, FLAG_C, FLAG_V, PC, SP};
use crate::cpu::thumb::{low_rd, low_register};
use crate::cpu::{Cpu, CpuView};

verus! {

broadcast use crate::bits::group_mask_bounds;

#[inline]
fn rd(op: u16) -> (index: usize)
    ensures
        index == low_rd(op),
        index < 8,
{
    (op & 0x7) as usize
}

#[inline]
fn rs(op: u16) -> (index: usize)
    ensures
        index == low_register(op, 3),
        index < 8,
{
    ((op >> 3) & 0x7) as usize
}

impl CpuView {
    /// The status after an arithmetic result.
    pub open spec fn arith_flags(cpsr: Cpsr, result: (u32, bool, bool)) -> Cpsr {
        cpsr.with_nz(result.0).with(FLAG_C, result.1).with(FLAG_V, result.2)
    }

    /// The state after an arithmetic result sets all four flags.
    pub open spec fn set_arith_flags(self, result: (u32, bool, bool)) -> CpuView {
        self.with_cpsr(Self::arith_flags(self.regs.cpsr, result))
    }

    /// The state after an arithmetic result is stored.
    pub open spec fn set_arith(self, rd: int, result: (u32, bool, bool)) -> CpuView {
        self.set(rd, result.0).set_arith_flags(result)
    }

    /// The state after a logical result is stored.
    pub open spec fn set_logical(self, rd: int, value: u32, carry: bool) -> CpuView {
        let stored = self.set(rd, value);
        stored.with_cpsr(self.regs.cpsr.with_nz(value).with(FLAG_C, carry))
    }

    /// The effect of format 1.
    pub open spec fn thumb_move_shifted(self, op: u16) -> CpuView {
        let (value, carry) = shifted_imm(
            shift_of((op >> 11) as u32),
            self.regs.gpr[low_register(op, 3)],
            ((op >> 6) & 0x1F) as u32,
            self.regs.cpsr.c(),
        );
        self.set_logical(low_rd(op), value, carry)
    }

    /// The effect of format 2.
    pub open spec fn thumb_add_sub(self, op: u16) -> CpuView {
        let operand = if op & (1u16 << 10) != 0 {
            ((op >> 6) & 0x7) as u32
        } else {
            self.regs.gpr[low_register(op, 6)]
        };
        let a = self.regs.gpr[low_register(op, 3)];
        self.set_arith(
            low_rd(op),
            if op & (1u16 << 9) != 0 {
                sum_with_flags(a, !operand, true)
            } else {
                sum_with_flags(a, operand, false)
            },
        )
    }

    /// The effect of format 3.
    pub open spec fn thumb_immediate(self, op: u16) -> CpuView {
        let rd = low_register(op, 8);
        let imm = (op & 0xFF) as u32;
        let a = self.regs.gpr[rd];
        let form = (op >> 11) & 0b11;
        if form == 0 {
            self.set(rd, imm).with_cpsr(self.regs.cpsr.with_nz(imm))
        } else if form == 1 {
            self.set_arith_flags(sum_with_flags(a, !imm, true))
        } else if form == 2 {
            self.set_arith(rd, sum_with_flags(a, imm, false))
        } else {
            self.set_arith(rd, sum_with_flags(a, !imm, true))
        }
    }

    /// The effect of a register-specified shift.
    pub open spec fn thumb_shift(self, rd: int, kind: ShiftType, amount: u32) -> CpuView {
        let (value, carry) = shifted_reg(kind, self.regs.gpr[rd], amount, self.regs.cpsr.c());
        self.set_logical(rd, value, carry)
    }

    /// The effect of format 4, and its internal cycles.
    pub open spec fn thumb_alu(self, op: u16) -> (CpuView, u32) {
        let rd = low_rd(op);
        let a = self.regs.gpr[rd];
        let b = self.regs.gpr[low_register(op, 3)];
        let carry = self.regs.cpsr.c();
        let code = (op >> 6) & 0xF;
        if code == 0x0 {
            (self.set_logical(rd, a & b, carry), 0)
        } else if code == 0x1 {
            (self.set_logical(rd, a ^ b, carry), 0)
        } else if code == 0x2 {
            (self.thumb_shift(rd, ShiftType::Lsl, b), 1)
        } else if code == 0x3 {
            (self.thumb_shift(rd, ShiftType::Lsr, b), 1)
        } else if code == 0x4 {
            (self.thumb_shift(rd, ShiftType::Asr, b), 1)
        } else if code == 0x5 {
            (self.set_arith(rd, sum_with_flags(a, b, carry)), 0)
        } else if code == 0x6 {
            (self.set_arith(rd, sum_with_flags(a, !b, carry)), 0)
        } else if code == 0x7 {
            (self.thumb_shift(rd, ShiftType::Ror, b), 1)
        } else if code == 0x8 {
            (self.with_cpsr(self.regs.cpsr.with_nz(a & b).with(FLAG_C, carry)), 0)
        } else if code == 0x9 {
            (self.set_arith(rd, sum_with_flags(0, !b, true)), 0)
        } else if code == 0xA {
            (self.set_arith_flags(sum_with_flags(a, !b, true)), 0)
        } else if code == 0xB {
            (self.set_arith_flags(sum_with_flags(a, b, false)), 0)
        } else if code == 0xC {
            (self.set_logical(rd, a | b, carry), 0)
        } else if code == 0xD {
            let v = a.wrapping_mul(b);
            (
                self.set(rd, v).with_cpsr(self.regs.cpsr.with_nz(v)),
                multiplier_bytes(b, true),
            )
        } else if code == 0xE {
            (self.set_logical(rd, a & !b, carry), 0)
        } else {
            (self.set_logical(rd, !b, carry), 0)
        }
    }

    /// The effect of format 5.
    pub open spec fn thumb_hi_reg(self, op: u16) -> CpuView {
        let rd = (((op >> 4) & 0x8) | (op & 0x7)) as int;
        let a = self.regs.gpr[rd];
        let b = self.regs.gpr[((op >> 3) & 0xF) as int];
        let form = (op >> 8) & 0b11;
        if form == 0 {
            self.write_register(rd, a.wrapping_add(b))
        } else if form == 1 {
            self.set_arith_flags(sum_with_flags(a, !b, true))
        } else if form == 2 {
            self.write_register(rd, b)
        } else {
            self.branch_exchange(b)
        }
    }

    /// The effect of format 12.
    pub open spec fn thumb_load_address(self, op: u16) -> CpuView {
        let base = if op & (1u16 << 11) != 0 {
            self.regs.gpr[13]
        } else {
            self.regs.gpr[15] & !2u32
        };
        self.set(low_register(op, 8), base.wrapping_add(((op & 0xFF) as u32) << 2))
    }

    /// The effect of format 13.
    pub open spec fn thumb_add_sp(self, op: u16) -> CpuView {
        let imm = ((op & 0x7F) as u32) << 2;
        let sp = self.regs.gpr[13];
        self.set(
            13,
            if op & (1u16 << 7) != 0 {
                sp.wrapping_sub(imm)
            } else {
                sp.wrapping_add(imm)
            },
        )
    }
}

pub(crate) proof fn lemma_hi_register(op: u16)
    ensures
        ((op >> 4) & 0x8) | (op & 0x7) < 16,
{
    crate::bits::small_facts(0, op, 0, 0);
}

impl Cpu {
    /// Stores an arithmetic result and sets all four flags.
    #[inline]
    fn set_arith(&mut self, rd: usize, result: (u32, bool, bool))
        requires
            old(self).wf(),
            rd < 16,
        ensures
            final(self).wf(),
            final(self)@ == old(self)@.set_arith(rd as int, result),
    {
        self.regs.set(rd, result.0);
        self.set_arith_flags(result);
    }

    #[inline]
    fn set_arith_flags(&mut self, result: (u32, bool, bool))
        requires
            old(self).wf(),
        ensures
            final(self).wf(),
            final(self)@ == old(self)@.set_arith_flags(result),
    {
        self.regs.cpsr.set_nz(result.0);
        self.regs.cpsr.set_c(result.1);
        self.regs.cpsr.set_v(result.2);
    }

    /// Stores a logical/shift result and sets N, Z and C.
    #[inline]
    fn set_logical(&mut self, rd: usize, value: u32, carry: bool)
        requires
            old(self).wf(),
            rd < 16,
        ensures
            final(self).wf(),
            final(self)@ == old(self)@.set_logical(rd as int, value, carry),
    {
        self.regs.set(rd, value);
        self.regs.cpsr.set_nz(value);
        self.regs.cpsr.set_c(carry);
    }

    /// Shifts `rd` by the low byte of `amount`.
    #[inline]
    fn thumb_shift(&mut self, rd: usize, kind: ShiftType, amount: u32)
        requires
            old(self).wf(),
            rd < 16,
        ensures
            final(self).wf(),
            final(self)@ == old(self)@.thumb_shift(rd as int, kind, amount),
    {
        let (value, carry) = shift_reg(kind, self.regs.get(rd), amount, self.regs.cpsr.c());
        self.set_logical(rd, value, carry);
    }

    /// Format 1: `LSL`/`LSR`/`ASR Rd, Rs, #offset5`.
    pub(crate) fn thumb_move_shifted(&mut self, op: u16) -> (cycles: u32)
        requires
            old(self).wf(),
        ensures
            final(self).wf(),
            final(self)@ == old(self)@.thumb_move_shifted(op),
            cycles == 0,
    {
        let kind = ShiftType::from_bits((op >> 11) as u32);
        let amount: u32 = ((op >> 6) & 0x1F) as u32;
        let (value, carry) = shift_imm(kind, self.regs.get(rs(op)), amount, self.regs.cpsr.c());
        self.set_logical(rd(op), value, carry);
        0
    }

    /// Format 2: `ADD`/`SUB Rd, Rs, Rn|#imm3`.
    pub(crate) fn thumb_add_sub(&mut self, op: u16) -> (cycles: u32)
        requires
            old(self).wf(),
        ensures
            final(self).wf(),
            final(self)@ == old(self)@.thumb_add_sub(op),
            cycles == 0,
    {
        let field: u16 = (op >> 6) & 0x7;
        let operand: u32 = if op & (1u16 << 10) != 0 {
            field as u32
        } else {
            self.regs.get(field as usize)
        };
        let a: u32 = self.regs.get(rs(op));
        let result = if op & (1u16 << 9) != 0 {
            add_with_carry(a, !operand, true)
        } else {
            add_with_carry(a, operand, false)
        };
        self.set_arith(rd(op), result);
        0
    }

    /// Format 3: `MOV`/`CMP`/`ADD`/`SUB Rd, #imm8`.
    pub(crate) fn thumb_immediate(&mut self, op: u16) -> (cycles: u32)
        requires
            old(self).wf(),
        ensures
            final(self).wf(),
            final(self)@ == old(self)@.thumb_immediate(op),
            cycles == 0,
    {
        let rd: usize = ((op >> 8) & 0x7) as usize;
        let imm: u32 = (op & 0xFF) as u32;
        let a: u32 = self.regs.get(rd);
        let form: u16 = (op >> 11) & 0b11;
        match form {
            0b00 => {
                self.regs.set(rd, imm);
                self.regs.cpsr.set_nz(imm);
            },
            0b01 => self.set_arith_flags(add_with_carry(a, !imm, true)),
            0b10 => self.set_arith(rd, add_with_carry(a, imm, false)),
            _ => self.set_arith(rd, add_with_carry(a, !imm, true)),
        }
        0
    }

    /// Format 4: register-register ALU operations.
    pub(crate) fn thumb_alu(&mut self, op: u16) -> (cycles: u32)
        requires
            old(self).wf(),
        ensures
            final(self).wf(),
            (final(self)@, cycles) == old(self)@.thumb_alu(op),
    {
        let rd: usize = rd(op);
        let a: u32 = self.regs.get(rd);
        let b: u32 = self.regs.get(rs(op));
        let carry = self.regs.cpsr.c();
        let mut cycles: u32 = 0;
        let code: u16 = (op >> 6) & 0xF;
        match code {
            0x0 => self.set_logical(rd, a & b, carry),
            0x1 => self.set_logical(rd, a ^ b, carry),
            0x2 => {
                self.thumb_shift(rd, ShiftType::Lsl, b);
                cycles = 1;
            },
            0x3 => {
                self.thumb_shift(rd, ShiftType::Lsr, b);
                cycles = 1;
            },
            0x4 => {
                self.thumb_shift(rd, ShiftType::Asr, b);
                cycles = 1;
            },
            0x5 => self.set_arith(rd, add_with_carry(a, b, carry)),
            0x6 => self.set_arith(rd, add_with_carry(a, !b, carry)),
            0x7 => {
                self.thumb_shift(rd, ShiftType::Ror, b);
                cycles = 1;
            },
            0x8 => {
                self.regs.cpsr.set_nz(a & b);
                self.regs.cpsr.set_c(carry);
            },
            0x9 => self.set_arith(rd, add_with_carry(0, !b, true)),
            0xA => self.set_arith_flags(add_with_carry(a, !b, true)),
            0xB => self.set_arith_flags(add_with_carry(a, b, false)),
            0xC => self.set_logical(rd, a | b, carry),
            0xD => {
                let v: u32 = a.wrapping_mul(b);
                self.regs.set(rd, v);
                self.regs.cpsr.set_nz(v);
                cycles = multiply_cycles(b, true);
            },
            0xE => self.set_logical(rd, a & !b, carry),
            _ => self.set_logical(rd, !b, carry),
        }
        cycles
    }

    /// Format 5: `ADD`/`CMP`/`MOV` on high registers and `BX`.
    pub(crate) fn thumb_hi_reg(&mut self, op: u16) -> (cycles: u32)
        requires
            old(self).wf(),
        ensures
            final(self).wf(),
            final(self)@ == old(self)@.thumb_hi_reg(op),
            cycles == 0,
    {
        proof {
            lemma_hi_register(op);
        }
        let rd: usize = (((op >> 4) & 0x8) | (op & 0x7)) as usize;
        let rs: usize = ((op >> 3) & 0xF) as usize;
        let a: u32 = self.regs.get(rd);
        let b: u32 = self.regs.get(rs);
        let form: u16 = (op >> 8) & 0b11;
        match form {
            0b00 => self.thumb_write_maybe_pc(rd, a.wrapping_add(b)),
            0b01 => {
                self.set_arith_flags(add_with_carry(a, !b, true));
                0
            },
            0b10 => self.thumb_write_maybe_pc(rd, b),
            _ => {
                self.regs.cpsr.set_thumb(b & 1 != 0);
                self.set_pc(b);
                0
            },
        }
    }

    /// Writes `value` to `rd`, flushing when `rd` is r15 (staying in THUMB).
    #[inline]
    fn thumb_write_maybe_pc(&mut self, rd: usize, value: u32) -> (cycles: u32)
        requires
            old(self).wf(),
            rd < 16,
        ensures
            final(self).wf(),
            final(self)@ == old(self)@.write_register(rd as int, value),
            cycles == 0,
    {
        self.write_register(rd, value);
        0
    }

    /// Format 12: `ADD Rd, PC|SP, #imm8*4`.
    pub(crate) fn thumb_load_address(&mut self, op: u16) -> (cycles: u32)
        requires
            old(self).wf(),
        ensures
            final(self).wf(),
            final(self)@ == old(self)@.thumb_load_address(op),
            cycles == 0,
    {
        let rd: usize = ((op >> 8) & 0x7) as usize;
        let imm: u32 = ((op & 0xFF) as u32) << 2;
        let base: u32 = if op & (1u16 << 11) != 0 {
            self.regs.get(SP)
        } else {
            self.regs.get(PC) & !2u32
        };
        self.regs.set(rd, base.wrapping_add(imm));
        0
    }

    /// Format 13: `ADD SP, #±imm7*4`.
    pub(crate) fn thumb_add_sp(&mut self, op: u16) -> (cycles: u32)
        requires
            old(self).wf(),
        ensures
            final(self).wf(),
            final(self)@ == old(self)@.thumb_add_sp(op),
            cycles == 0,
    {
        let imm: u32 = ((op & 0x7F) as u32) << 2;
        let sp: u32 = self.regs.get(SP);
        let sp: u32 = if op & (1u16 << 7) != 0 {
            sp.wrapping_sub(imm)
        } else {
            sp.wrapping_add(imm)
        };
        self.regs.set(SP, sp);
        0
    }
}

} // verus!
