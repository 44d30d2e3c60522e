//! ARM data processing, PSR transfer and multiply instructions.

use vstd::prelude::*;

use crate::cpu::alu::{
    add_with_carry, multiplier_bytes, multiply_cycles, rotate_right, rotated_right, shift_imm,
    shift_of, shift_reg, shifted_imm, shifted_reg, sum_with_flags, ShiftType,
};
use crate::cpu::arm::{field, low_field, opcode};
use crate::cpu::registers::{Cpsr, Mode, FLAG_C, FLAG_N, FLAG_V, FLAG_Z, PC};
use crate::cpu::{Cpu, CpuView};

verus! {

broadcast use crate::bits::group_mask_bounds;

/// The immediate in bits 7:0 rotated right by twice bits 11:8, and the
/// rotation.
pub open spec fn immediate_operand(op: u32) -> (u32, u32) {
    let rot = (((op >> 8) & 0xF) * 2) as u32;
    (rotated_right(op & 0xFF, rot), rot)
}

/// Rotates an 8-bit immediate (bits 7:0) right by twice the 4-bit field
/// in bits 11:8. Used by data processing and `MSR`.
#[inline]
fn rotated_immediate(op: u32) -> (out: (u32, u32))
    ensures
        out == immediate_operand(op),
{
    let rot: u32 = ((op >> 8) & 0xF) * 2;
    (rotate_right(op & 0xFF, rot), rot)
}

/// The result of a data-processing opcode and, for the arithmetic ones, the
/// carry and overflow they produce.
pub open spec fn dp_result(opcode: u32, rn: u32, op2: u32, carry: bool) -> (
    u32,
    Option<(bool, bool)>,
) {
    let sum = |a: u32, b: u32, c: bool|
        {
            let (r, co, v) = sum_with_flags(a, b, c);
            (r, Some((co, v)))
        };
    if opcode == opcode::AND || opcode == opcode::TST {
        (rn & op2, None)
    } else if opcode == opcode::EOR || opcode == opcode::TEQ {
        (rn ^ op2, None)
    } else if opcode == opcode::SUB || opcode == opcode::CMP {
        sum(rn, !op2, true)
    } else if opcode == opcode::RSB {
        sum(op2, !rn, true)
    } else if opcode == opcode::ADD || opcode == opcode::CMN {
        sum(rn, op2, false)
    } else if opcode == opcode::ADC {
        sum(rn, op2, carry)
    } else if opcode == opcode::SBC {
        sum(rn, !op2, carry)
    } else if opcode == opcode::RSC {
        sum(op2, !rn, carry)
    } else if opcode == opcode::ORR {
        (rn | op2, None)
    } else if opcode == opcode::MOV {
        (op2, None)
    } else if opcode == opcode::BIC {
        (rn & !op2, None)
    } else {
        (!op2, None)
    }
}

/// Whether an opcode only sets flags.
pub open spec fn dp_is_test(opcode: u32) -> bool {
    opcode::TST <= opcode <= opcode::CMN
}

/// The status bytes that bits 19:16 of an `MSR` select.
pub open spec fn msr_fields(op: u32) -> u32 {
    let byte = |bit: u32, mask: u32|
        if op & (1u32 << bit) != 0 {
            mask
        } else {
            0
        };
    byte(16, 0x0000_00FF) | byte(17, 0x0000_FF00) | byte(18, 0x00FF_0000) | byte(19, 0xFF00_0000)
}

/// The 64-bit product of two registers.
pub open spec fn long_product(a: u32, b: u32, signed: bool) -> u64 {
    if signed {
        ((a as i32) * (b as i32)) as i64 as u64
    } else {
        (a * b) as u64
    }
}

impl CpuView {
    /// Register `i`, where r15 reads as PC+12 instead of PC+8.
    pub open spec fn reg_plus4_if_pc(self, i: int) -> u32 {
        if i == 15 {
            self.regs.gpr[i].wrapping_add(4)
        } else {
            self.regs.gpr[i]
        }
    }

    /// Operand 2 of a data-processing instruction: its value, the shifter's
    /// carry and whether a register gave the shift amount.
    pub open spec fn arm_operand2(self, op: u32) -> (u32, bool, bool) {
        let carry_in = self.regs.cpsr.c();
        if op & (1u32 << 25) != 0 {
            let (value, rot) = immediate_operand(op);
            (
                value,
                if rot == 0 {
                    carry_in
                } else {
                    value >> 31 != 0
                },
                false,
            )
        } else if op & (1u32 << 4) != 0 {
            let amount = self.regs.gpr[field(op, 8)] & 0xFF;
            let (value, carry) = shifted_reg(
                shift_of(op >> 5),
                self.reg_plus4_if_pc(low_field(op)),
                amount,
                carry_in,
            );
            (value, carry, true)
        } else {
            let (value, carry) = shifted_imm(
                shift_of(op >> 5),
                self.regs.gpr[low_field(op)],
                (op >> 7) & 0x1F,
                carry_in,
            );
            (value, carry, false)
        }
    }

    /// The status after a flag-setting data-processing instruction.
    pub open spec fn dp_flags(
        cpsr: Cpsr,
        result: u32,
        arith: Option<(bool, bool)>,
        shifter_carry: bool,
    ) -> Cpsr {
        let nz = cpsr.with_nz(result);
        match arith {
            Some((c, v)) => nz.with(FLAG_C, c).with(FLAG_V, v),
            None => nz.with(FLAG_C, shifter_carry),
        }
    }

    /// The effect of a data-processing instruction, and its internal cycles.
    pub open spec fn arm_data_processing(self, op: u32) -> (CpuView, u32) {
        let opcode = (op >> 21) & 0xF;
        let set_flags = op & (1u32 << 20) != 0;
        let rd = field(op, 12);
        let (op2, shifter_carry, reg_shift) = self.arm_operand2(op);
        let rn = if reg_shift {
            self.reg_plus4_if_pc(field(op, 16))
        } else {
            self.regs.gpr[field(op, 16)]
        };
        let (result, arith) = dp_result(opcode, rn, op2, self.regs.cpsr.c());
        let cycles: u32 = if reg_shift {
            1
        } else {
            0
        };
        let test = dp_is_test(opcode);
        if rd == 15 && !test {
            let restored = if set_flags && self.regs.spsr() is Some {
                self.with_regs(self.regs.set_cpsr(self.regs.spsr()->0))
            } else {
                self
            };
            (restored.set_pc(result), cycles)
        } else {
            let flagged = if set_flags {
                self.with_cpsr(Self::dp_flags(self.regs.cpsr, result, arith, shifter_carry))
            } else {
                self
            };
            (
                if test {
                    flagged
                } else {
                    flagged.set(rd, result)
                },
                cycles,
            )
        }
    }

    /// The effect of `MRS` or `MSR`.
    pub open spec fn arm_psr_transfer(self, op: u32) -> CpuView {
        let use_spsr = op & (1u32 << 22) != 0;
        if op & (1u32 << 21) == 0 {
            let value = if use_spsr && self.regs.spsr() is Some {
                self.regs.spsr()->0
            } else {
                self.regs.cpsr
            };
            self.write_register(field(op, 12), value.0)
        } else {
            let operand = if op & (1u32 << 25) != 0 {
                immediate_operand(op).0
            } else {
                self.regs.gpr[low_field(op)]
            };
            let mask = if self.regs.mode() is User {
                msr_fields(op) & 0xFF00_0000
            } else {
                msr_fields(op)
            };
            if use_spsr {
                match self.regs.spsr() {
                    Some(spsr) => self.with_regs(
                        self.regs.set_spsr(Cpsr((spsr.0 & !mask) | (operand & mask))),
                    ),
                    None => self,
                }
            } else {
                // The T bit is out of reach of `MSR`.
                let mask = mask & !(1u32 << 5);
                self.with_regs(
                    self.regs.set_cpsr(Cpsr((self.regs.cpsr.0 & !mask) | (operand & mask))),
                )
            }
        }
    }

    /// The effect of `MUL`/`MLA`, and its internal cycles.
    pub open spec fn arm_multiply(self, op: u32) -> (CpuView, u32) {
        let accumulate = op & (1u32 << 21) != 0;
        let rs = self.regs.gpr[field(op, 8)];
        let product = self.regs.gpr[low_field(op)].wrapping_mul(rs);
        let result = if accumulate {
            product.wrapping_add(self.regs.gpr[field(op, 12)])
        } else {
            product
        };
        let written = self.write_register(field(op, 16), result);
        (
            if op & (1u32 << 20) != 0 {
                written.with_cpsr(self.regs.cpsr.with_nz(result))
            } else {
                written
            },
            (multiplier_bytes(rs, true) + if accumulate {
                1int
            } else {
                0
            }) as u32,
        )
    }

    /// The effect of a long multiply, and its internal cycles.
    pub open spec fn arm_multiply_long(self, op: u32) -> (CpuView, u32) {
        let signed = op & (1u32 << 22) != 0;
        let accumulate = op & (1u32 << 21) != 0;
        let hi = field(op, 16);
        let lo = field(op, 12);
        let rs = self.regs.gpr[field(op, 8)];
        let product = long_product(self.regs.gpr[low_field(op)], rs, signed);
        let result = if accumulate {
            product.wrapping_add(
                ((self.regs.gpr[hi] as u64) << 32) | (self.regs.gpr[lo] as u64),
            )
        } else {
            product
        };
        let written = self.write_register(lo, result as u32).write_register(
            hi,
            (result >> 32) as u32,
        );
        (
            if op & (1u32 << 20) != 0 {
                written.with_cpsr(
                    self.regs.cpsr.with(FLAG_N, result >> 63 != 0).with(FLAG_Z, result == 0),
                )
            } else {
                written
            },
            (multiplier_bytes(rs, signed) + if accumulate {
                2int
            } else {
                1
            }) as u32,
        )
    }
}

/// Two signed words multiply within 64 bits.
proof fn lemma_signed_product(a: i64, b: i64)
    requires
        -0x8000_0000 <= a <= 0x7FFF_FFFF,
        -0x8000_0000 <= b <= 0x7FFF_FFFF,
    ensures
        i64::MIN <= a * b <= i64::MAX,
{
    assert(-0x4000_0000_0000_0000 <= a * b <= 0x4000_0000_0000_0000) by (nonlinear_arith)
        requires
            -0x8000_0000 <= a <= 0x7FFF_FFFF,
            -0x8000_0000 <= b <= 0x7FFF_FFFF,
    ;
}

/// Two unsigned words multiply within 64 bits.
proof fn lemma_unsigned_product(a: u32, b: u32)
    ensures
        0 <= a * b <= u64::MAX,
{
    assert(0 <= a * b <= 0xFFFF_FFFF * 0xFFFF_FFFF) by (nonlinear_arith)
        requires
            0 <= a <= 0xFFFF_FFFF,
            0 <= b <= 0xFFFF_FFFF,
    ;
}

impl Cpu {
    /// Reads `Rn`/`Rm` for the register-specified-shift form, where r15
    /// reads as PC+12 instead of PC+8.
    #[inline]
    fn reg_plus4_if_pc(&self, index: usize) -> (value: u32)
        requires
            index < 16,
        ensures
            value == self@.reg_plus4_if_pc(index as int),
    {
        let value: u32 = self.regs.get(index);
        if index == PC {
            value.wrapping_add(4)
        } else {
            value
        }
    }

    /// Evaluates operand 2 of a data-processing instruction.
    ///
    /// Returns `(value, shifter_carry, register_shift)`; the last flag
    /// tells the caller that r15 reads +4 and one extra cycle is due.
    fn arm_operand2(&self, op: u32) -> (out: (u32, bool, bool))
        ensures
            out == self@.arm_operand2(op),
    {
        let carry_in = self.regs.cpsr.c();
        if op & (1u32 << 25) != 0 {
            let (value, rot) = rotated_immediate(op);
            let carry = if rot == 0 {
                carry_in
            } else {
                value >> 31 != 0
            };
            return (value, carry, false);
        }
        let rm: usize = (op & 0xF) as usize;
        let kind = ShiftType::from_bits(op >> 5);
        if op & (1u32 << 4) != 0 {
            let rs: usize = ((op >> 8) & 0xF) as usize;
            let amount: u32 = self.regs.get(rs) & 0xFF;
            let (value, carry) = shift_reg(kind, self.reg_plus4_if_pc(rm), amount, carry_in);
            (value, carry, true)
        } else {
            let amount: u32 = (op >> 7) & 0x1F;
            let (value, carry) = shift_imm(kind, self.regs.get(rm), amount, carry_in);
            (value, carry, false)
        }
    }

    /// Executes a data-processing instruction.
    pub(crate) fn arm_data_processing(&mut self, op: u32) -> (cycles: u32)
        requires
            old(self).wf(),
        ensures
            final(self).wf(),
            (final(self)@, cycles) == old(self)@.arm_data_processing(op),
    {
        let opcode: u32 = (op >> 21) & 0xF;
        let set_flags = op & (1u32 << 20) != 0;
        let rn: usize = ((op >> 16) & 0xF) as usize;
        let rd: usize = ((op >> 12) & 0xF) as usize;

        let (op2, shifter_carry, reg_shift) = self.arm_operand2(op);
        let rn_val: u32 = if reg_shift {
            self.reg_plus4_if_pc(rn)
        } else {
            self.regs.get(rn)
        };
        let carry = self.regs.cpsr.c();
        let cycles: u32 = if reg_shift {
            1
        } else {
            0
        };

        // `arith` carries the (C, V) produced by an add/sub; logical ops
        // use the shifter carry and leave V alone.
        let (result, arith) = match opcode {
            opcode::AND | opcode::TST => (rn_val & op2, None),
            opcode::EOR | opcode::TEQ => (rn_val ^ op2, None),
            opcode::SUB | opcode::CMP => Self::arith(rn_val, !op2, true),
            opcode::RSB => Self::arith(op2, !rn_val, true),
            opcode::ADD | opcode::CMN => Self::arith(rn_val, op2, false),
            opcode::ADC => Self::arith(rn_val, op2, carry),
            opcode::SBC => Self::arith(rn_val, !op2, carry),
            opcode::RSC => Self::arith(op2, !rn_val, carry),
            opcode::ORR => (rn_val | op2, None),
            opcode::MOV => (op2, None),
            opcode::BIC => (rn_val & !op2, None),
            _ => (!op2, None),  // MVN
        };

        let is_test = opcode >= opcode::TST && opcode <= opcode::CMN;

        if rd == PC && !is_test {
            if set_flags {
                // `MOVS pc, lr` and friends: exception return.
                if let Some(spsr) = self.regs.spsr() {
                    self.regs.set_cpsr(spsr);
                }
            }
            self.set_pc(result);
            return cycles;
        }
        if set_flags {
            self.regs.cpsr.set_nz(result);
            match arith {
                Some((c, v)) => {
                    self.regs.cpsr.set_c(c);
                    self.regs.cpsr.set_v(v);
                },
                None => self.regs.cpsr.set_c(shifter_carry),
            }
        }
        if !is_test {
            self.regs.set(rd, result);
        }
        cycles
    }

    #[inline]
    fn arith(a: u32, b: u32, carry: bool) -> (out: (u32, Option<(bool, bool)>))
        ensures
            out == ({
                let (r, c, v) = sum_with_flags(a, b, carry);
                (r, Some((c, v)))
            }),
    {
        let (result, c, v) = add_with_carry(a, b, carry);
        (result, Some((c, v)))
    }

    /// Executes `MRS` or `MSR`.
    pub(crate) fn arm_psr_transfer(&mut self, op: u32) -> (cycles: u32)
        requires
            old(self).wf(),
        ensures
            final(self).wf(),
            final(self)@ == old(self)@.arm_psr_transfer(op),
            cycles == 0,
    {
        let use_spsr = op & (1u32 << 22) != 0;
        if op & (1u32 << 21) == 0 {
            // MRS Rd, CPSR|SPSR
            let rd: usize = ((op >> 12) & 0xF) as usize;
            let value = if use_spsr {
                match self.regs.spsr() {
                    Some(spsr) => spsr,
                    None => self.regs.cpsr,
                }
            } else {
                self.regs.cpsr
            };
            self.write_register(rd, value.0);
            return 0;
        }

        // MSR CPSR|SPSR_<fields>, Rm|#imm
        let operand: u32 = if op & (1u32 << 25) != 0 {
            rotated_immediate(op).0
        } else {
            self.regs.get((op & 0xF) as usize)
        };
        let control: u32 = if op & (1u32 << 16) != 0 {
            0x0000_00FF
        } else {
            0
        };
        let extension: u32 = if op & (1u32 << 17) != 0 {
            0x0000_FF00
        } else {
            0
        };
        let status: u32 = if op & (1u32 << 18) != 0 {
            0x00FF_0000
        } else {
            0
        };
        let flags: u32 = if op & (1u32 << 19) != 0 {
            0xFF00_0000
        } else {
            0
        };
        let mut mask: u32 = control | extension | status | flags;
        // User mode may only touch the flag byte.
        if self.regs.mode() == Mode::User {
            mask = mask & 0xFF00_0000;
        }
        if use_spsr {
            if let Some(spsr) = self.regs.spsr() {
                self.regs.set_spsr(Cpsr((spsr.0 & !mask) | (operand & mask)));
            }
        } else {
            // Changing T via MSR is unpredictable on hardware; keep it fixed.
            let mask: u32 = mask & !(1u32 << 5);
            let new = Cpsr((self.regs.cpsr.0 & !mask) | (operand & mask));
            self.regs.set_cpsr(new);
        }
        0
    }

    /// Executes `MUL`/`MLA`.
    pub(crate) fn arm_multiply(&mut self, op: u32) -> (cycles: u32)
        requires
            old(self).wf(),
        ensures
            final(self).wf(),
            (final(self)@, cycles) == old(self)@.arm_multiply(op),
    {
        let accumulate = op & (1u32 << 21) != 0;
        let set_flags = op & (1u32 << 20) != 0;
        let rd: usize = ((op >> 16) & 0xF) as usize;
        let rn: usize = ((op >> 12) & 0xF) as usize;
        let rs: usize = ((op >> 8) & 0xF) as usize;
        let rm: usize = (op & 0xF) as usize;

        let rs_val: u32 = self.regs.get(rs);
        let mut result: u32 = self.regs.get(rm).wrapping_mul(rs_val);
        let mut cycles: u32 = multiply_cycles(rs_val, true);
        if accumulate {
            result = result.wrapping_add(self.regs.get(rn));
            cycles = cycles + 1;
        }
        self.write_register(rd, result);
        if set_flags {
            self.regs.cpsr.set_nz(result);
        }
        cycles
    }

    /// Executes `UMULL`/`UMLAL`/`SMULL`/`SMLAL`.
    pub(crate) fn arm_multiply_long(&mut self, op: u32) -> (cycles: u32)
        requires
            old(self).wf(),
        ensures
            final(self).wf(),
            (final(self)@, cycles) == old(self)@.arm_multiply_long(op),
    {
        let signed = op & (1u32 << 22) != 0;
        let accumulate = op & (1u32 << 21) != 0;
        let set_flags = op & (1u32 << 20) != 0;
        let rd_hi: usize = ((op >> 16) & 0xF) as usize;
        let rd_lo: usize = ((op >> 12) & 0xF) as usize;
        let rs: usize = ((op >> 8) & 0xF) as usize;
        let rm: usize = (op & 0xF) as usize;

        let multiplier: u32 = self.regs.get(rs);
        let multiplicand: u32 = self.regs.get(rm);
        proof {
            lemma_signed_product(multiplicand as i32 as i64, multiplier as i32 as i64);
            lemma_unsigned_product(multiplicand, multiplier);
        }
        let mut result: u64 = if signed {
            ((multiplicand as i32 as i64) * (multiplier as i32 as i64)) as u64
        } else {
            (multiplicand as u64) * (multiplier as u64)
        };
        let mut cycles: u32 = 1 + multiply_cycles(multiplier, signed);
        if accumulate {
            let acc: u64 = ((self.regs.get(rd_hi) as u64) << 32) | (self.regs.get(rd_lo) as u64);
            result = result.wrapping_add(acc);
            cycles = cycles + 1;
        }
        self.write_register(rd_lo, result as u32);
        self.write_register(rd_hi, (result >> 32) as u32);
        if set_flags {
            self.regs.cpsr.set_n(result >> 63 != 0);
            self.regs.cpsr.set_z(result == 0);
        }
        cycles
    }
}

} // verus!
