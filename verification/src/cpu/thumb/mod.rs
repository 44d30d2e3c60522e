//! THUMB (16-bit) instruction set: decoding and execution.

use vstd::prelude::*;

pub mod alu;
pub mod laws;
pub mod mem;

use crate::cpu::registers::{condition_holds, LR, PC};
use crate::cpu::{Cpu, CpuView, Exception};
use crate::memory::Memory;

verus! {

broadcast use crate::bits::group_mask_bounds;

/// The three-bit register field of `op` that starts at bit `shift`.
pub open spec fn low_register(op: u16, shift: u16) -> int {
    ((op >> shift) & 0x7) as int
}

/// The register field in bits 2:0 of `op`.
pub open spec fn low_rd(op: u16) -> int {
    (op & 0x7) as int
}

/// The THUMB instruction format (numbered as in the ARM7TDMI manual).
#[derive(Debug, Clone, Copy, PartialEq, Eq, Structural)]
pub enum ThumbKind {
    /// 1: `LSL`/`LSR`/`ASR Rd, Rs, #imm`
    MoveShifted,
    /// 2: `ADD`/`SUB Rd, Rs, Rn|#imm3`
    AddSub,
    /// 3: `MOV`/`CMP`/`ADD`/`SUB Rd, #imm8`
    MovCmpAddSubImm,
    /// 4: register-register ALU operations
    AluOps,
    /// 5: `ADD`/`CMP`/`MOV` with high registers, and `BX`
    HiRegBx,
    /// 6: `LDR Rd, [PC, #imm]`
    LdrPcRel,
    /// 7: `LDR`/`STR`(`B`) `Rd, [Rb, Ro]`
    LdrStrReg,
    /// 8: `LDRH`/`STRH`/`LDRSB`/`LDRSH Rd, [Rb, Ro]`
    LdrStrSignExt,
    /// 9: `LDR`/`STR`(`B`) `Rd, [Rb, #imm]`
    LdrStrImm,
    /// 10: `LDRH`/`STRH Rd, [Rb, #imm]`
    LdrStrHalf,
    /// 11: `LDR`/`STR Rd, [SP, #imm]`
    LdrStrSpRel,
    /// 12: `ADD Rd, PC|SP, #imm`
    LoadAddress,
    /// 13: `ADD SP, #±imm`
    AddSp,
    /// 14: `PUSH`/`POP`
    PushPop,
    /// 15: `LDMIA`/`STMIA`
    LdmStm,
    /// 16: `B<cond> label`
    CondBranch,
    /// 17: `SWI`
    Swi,
    /// 18: `B label`
    Branch,
    /// 19: `BL label` (two halves)
    LongBranchLink,
    /// Unallocated encoding.
    Undefined,
}

/// The format of THUMB opcode `op`.
pub open spec fn thumb_kind(op: u16) -> ThumbKind {
    let group = op >> 13;
    let sub = (op >> 10) & 0b111;
    let pair = (op >> 11) & 0b11;
    let bit12 = op & (1u16 << 12) != 0;
    if group == 0 {
        if pair == 0b11 {
            ThumbKind::AddSub
        } else {
            ThumbKind::MoveShifted
        }
    } else if group == 1 {
        ThumbKind::MovCmpAddSubImm
    } else if group == 2 {
        if sub == 0 {
            ThumbKind::AluOps
        } else if sub == 1 {
            ThumbKind::HiRegBx
        } else if sub == 2 || sub == 3 {
            ThumbKind::LdrPcRel
        } else if op & (1u16 << 9) != 0 {
            ThumbKind::LdrStrSignExt
        } else {
            ThumbKind::LdrStrReg
        }
    } else if group == 3 {
        ThumbKind::LdrStrImm
    } else if group == 4 {
        if bit12 {
            ThumbKind::LdrStrSpRel
        } else {
            ThumbKind::LdrStrHalf
        }
    } else if group == 5 {
        if !bit12 {
            ThumbKind::LoadAddress
        } else if op & 0x0F00 == 0 {
            ThumbKind::AddSp
        } else if op & 0x0600 == 0x0400 {
            ThumbKind::PushPop
        } else {
            ThumbKind::Undefined
        }
    } else if group == 6 {
        if !bit12 {
            ThumbKind::LdmStm
        } else if op & 0x0F00 == 0x0F00 {
            ThumbKind::Swi
        } else if op & 0x0F00 == 0x0E00 {
            ThumbKind::Undefined
        } else {
            ThumbKind::CondBranch
        }
    } else {
        if pair == 0 {
            ThumbKind::Branch
        } else if pair == 1 {
            ThumbKind::Undefined
        } else {
            ThumbKind::LongBranchLink
        }
    }
}

/// Classifies a THUMB opcode.
#[must_use]
pub fn decode(op: u16) -> (kind: ThumbKind)
    ensures
        kind == thumb_kind(op),
{
    let group: u16 = op >> 13;
    match group {
        0b000 => {
            if (op >> 11) & 0b11 == 0b11 {
                ThumbKind::AddSub
            } else {
                ThumbKind::MoveShifted
            }
        },
        0b001 => ThumbKind::MovCmpAddSubImm,
        0b010 => {
            let sub: u16 = (op >> 10) & 0b111;
            match sub {
                0b000 => ThumbKind::AluOps,
                0b001 => ThumbKind::HiRegBx,
                0b010 | 0b011 => ThumbKind::LdrPcRel,
                _ => {
                    if op & (1u16 << 9) != 0 {
                        ThumbKind::LdrStrSignExt
                    } else {
                        ThumbKind::LdrStrReg
                    }
                },
            }
        },
        0b011 => ThumbKind::LdrStrImm,
        0b100 => {
            if op & (1u16 << 12) != 0 {
                ThumbKind::LdrStrSpRel
            } else {
                ThumbKind::LdrStrHalf
            }
        },
        0b101 => {
            if op & (1u16 << 12) == 0 {
                ThumbKind::LoadAddress
            } else if op & 0x0F00 == 0 {
                ThumbKind::AddSp
            } else if op & 0x0600 == 0x0400 {
                ThumbKind::PushPop
            } else {
                ThumbKind::Undefined
            }
        },
        0b110 => {
            if op & (1u16 << 12) == 0 {
                ThumbKind::LdmStm
            } else if op & 0x0F00 == 0x0F00 {
                ThumbKind::Swi
            } else if op & 0x0F00 == 0x0E00 {
                ThumbKind::Undefined
            } else {
                ThumbKind::CondBranch
            }
        },
        _ => {
            let pair: u16 = (op >> 11) & 0b11;
            match pair {
                0b00 => ThumbKind::Branch,
                0b01 => ThumbKind::Undefined,
                _ => ThumbKind::LongBranchLink,
            }
        },
    }
}

impl CpuView {
    /// The effect of format 18: an 11-bit signed halfword offset.
    pub open spec fn thumb_branch(self, op: u16) -> CpuView {
        let offset = (((op as i32) << 21u32) >> 20u32) as u32;
        self.set_pc(self.regs.gpr[15].wrapping_add(offset))
    }

    /// The effect of format 16: an 8-bit signed halfword offset.
    pub open spec fn thumb_cond_branch(self, op: u16) -> CpuView {
        if condition_holds(self.regs.cpsr, ((op >> 8) as u32) & 0xF) {
            let offset = (((op as i8) as i32) << 1u32) as u32;
            self.set_pc(self.regs.gpr[15].wrapping_add(offset))
        } else {
            self
        }
    }

    /// The effect of one half of format 19.
    pub open spec fn thumb_long_branch_link(self, op: u16) -> CpuView {
        let offset = (op & 0x7FF) as u32;
        if op & (1u16 << 11) == 0 {
            let upper = (((offset << 21) as i32) >> 9u32) as u32;
            self.set(14, self.regs.gpr[15].wrapping_add(upper))
        } else {
            let return_address = self.regs.gpr[15].wrapping_sub(2);
            let target = self.regs.gpr[14].wrapping_add(offset << 1);
            self.set(14, return_address | 1).set_pc(target)
        }
    }

    /// The effect of THUMB instruction `op` on the CPU and on memory, and
    /// its internal cycles.
    #[verifier::opaque]
    pub open spec fn execute_thumb<M: Memory>(self, s: M::State, op: u16) -> (
        CpuView,
        M::State,
        u32,
    ) {
        match thumb_kind(op) {
            ThumbKind::MoveShifted => (self.thumb_move_shifted(op), s, 0),
            ThumbKind::AddSub => (self.thumb_add_sub(op), s, 0),
            ThumbKind::MovCmpAddSubImm => (self.thumb_immediate(op), s, 0),
            ThumbKind::AluOps => {
                let (cpu, cycles) = self.thumb_alu(op);
                (cpu, s, cycles)
            },
            ThumbKind::HiRegBx => (self.thumb_hi_reg(op), s, 0),
            ThumbKind::LdrPcRel => self.thumb_ldr_pc::<M>(s, op),
            ThumbKind::LdrStrReg => self.thumb_ldr_str_reg::<M>(s, op),
            ThumbKind::LdrStrSignExt => self.thumb_ldr_str_sign_ext::<M>(s, op),
            ThumbKind::LdrStrImm => self.thumb_ldr_str_imm::<M>(s, op),
            ThumbKind::LdrStrHalf => self.thumb_ldr_str_half::<M>(s, op),
            ThumbKind::LdrStrSpRel => self.thumb_ldr_str_sp::<M>(s, op),
            ThumbKind::LoadAddress => (self.thumb_load_address(op), s, 0),
            ThumbKind::AddSp => (self.thumb_add_sp(op), s, 0),
            ThumbKind::PushPop => self.thumb_push_pop::<M>(s, op),
            ThumbKind::LdmStm => self.thumb_ldm_stm::<M>(s, op),
            ThumbKind::CondBranch => (self.thumb_cond_branch(op), s, 0),
            ThumbKind::Branch => (self.thumb_branch(op), s, 0),
            ThumbKind::LongBranchLink => (self.thumb_long_branch_link(op), s, 0),
            ThumbKind::Swi => (self.software_interrupt(op as u8), s, 0),
            ThumbKind::Undefined => (self.enter_exception(Exception::Undefined), s, 0),
        }
    }
}

impl Cpu {
    /// Executes one THUMB instruction and returns its internal cycles.
    pub(crate) fn execute_thumb<M: Memory>(&mut self, mem: &mut M, op: u16) -> (cycles: u32)
        requires
            old(self).wf(),
            old(mem).wf(),
        ensures
            final(self).wf(),
            final(mem).wf(),
            M::elapsed(final(mem).state()) >= M::elapsed(old(mem).state()),
            (final(self)@, final(mem).state(), cycles) == old(self)@.execute_thumb::<M>(
                old(mem).state(),
                op,
            ),
    {
        proof {
            reveal(CpuView::execute_thumb);
        }
        match decode(op) {
            ThumbKind::MoveShifted => self.thumb_move_shifted(op),
            ThumbKind::AddSub => self.thumb_add_sub(op),
            ThumbKind::MovCmpAddSubImm => self.thumb_immediate(op),
            ThumbKind::AluOps => self.thumb_alu(op),
            ThumbKind::HiRegBx => self.thumb_hi_reg(op),
            ThumbKind::LdrPcRel => self.thumb_ldr_pc(mem, op),
            ThumbKind::LdrStrReg => self.thumb_ldr_str_reg(mem, op),
            ThumbKind::LdrStrSignExt => self.thumb_ldr_str_sign_ext(mem, op),
            ThumbKind::LdrStrImm => self.thumb_ldr_str_imm(mem, op),
            ThumbKind::LdrStrHalf => self.thumb_ldr_str_half(mem, op),
            ThumbKind::LdrStrSpRel => self.thumb_ldr_str_sp(mem, op),
            ThumbKind::LoadAddress => self.thumb_load_address(op),
            ThumbKind::AddSp => self.thumb_add_sp(op),
            ThumbKind::PushPop => self.thumb_push_pop(mem, op),
            ThumbKind::LdmStm => self.thumb_ldm_stm(mem, op),
            ThumbKind::CondBranch => self.thumb_cond_branch(op),
            ThumbKind::Branch => self.thumb_branch(op),
            ThumbKind::LongBranchLink => self.thumb_long_branch_link(op),
            ThumbKind::Swi => {
                self.software_interrupt(op as u8);
                0
            },
            ThumbKind::Undefined => {
                self.enter_exception(Exception::Undefined);
                0
            },
        }
    }

    /// Format 18: unconditional branch, 11-bit signed halfword offset.
    fn thumb_branch(&mut self, op: u16) -> (cycles: u32)
        requires
            old(self).wf(),
        ensures
            final(self).wf(),
            final(self)@ == old(self)@.thumb_branch(op),
            cycles == 0,
    {
        let offset: u32 = (((op as i32) << 21u32) >> 20u32) as u32;
        let target: u32 = self.regs.get(PC).wrapping_add(offset);
        self.set_pc(target);
        0
    }

    /// Format 16: conditional branch, 8-bit signed halfword offset.
    fn thumb_cond_branch(&mut self, op: u16) -> (cycles: u32)
        requires
            old(self).wf(),
        ensures
            final(self).wf(),
            final(self)@ == old(self)@.thumb_cond_branch(op),
            cycles == 0,
    {
        if !self.regs.cpsr.condition((op >> 8) as u32) {
            return 0;
        }
        let offset: u32 = (((op as i8) as i32) << 1u32) as u32;
        let target: u32 = self.regs.get(PC).wrapping_add(offset);
        self.set_pc(target);
        0
    }

    /// Format 19: `BL` split into two halfwords. The first stashes the
    /// upper offset in LR; the second completes the branch and sets LR to
    /// the return address with bit 0 set (THUMB).
    fn thumb_long_branch_link(&mut self, op: u16) -> (cycles: u32)
        requires
            old(self).wf(),
        ensures
            final(self).wf(),
            final(self)@ == old(self)@.thumb_long_branch_link(op),
            cycles == 0,
    {
        let offset: u32 = (op & 0x7FF) as u32;
        if op & (1u16 << 11) == 0 {
            let upper: u32 = (((offset << 21) as i32) >> 9u32) as u32;
            let stashed: u32 = self.regs.get(PC).wrapping_add(upper);
            self.regs.set(LR, stashed);
        } else {
            let return_addr: u32 = self.regs.get(PC).wrapping_sub(2);
            let target: u32 = self.regs.get(LR).wrapping_add(offset << 1);
            self.regs.set(LR, return_addr | 1);
            self.set_pc(target);
        }
        0
    }
}

} // verus!
