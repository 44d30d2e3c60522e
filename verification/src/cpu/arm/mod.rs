//! ARM (32-bit) instruction set: decoding and execution.

use vstd::prelude::*;

pub mod alu;
pub mod laws;
pub mod mem;
pub mod opcode;
pub mod transfer_laws;

use crate::cpu::registers::{condition_holds, FLAG_T, LR, PC};
use crate::cpu::{Cpu, CpuView, Exception};
use crate::memory::Memory;

verus! {

broadcast use crate::bits::group_mask_bounds;

/// The four-bit register field of `op` that starts at bit `shift`.
pub open spec fn field(op: u32, shift: u32) -> int {
    ((op >> shift) & 0xF) as int
}

/// The register field in bits 3:0 of `op`.
pub open spec fn low_field(op: u32) -> int {
    (op & 0xF) as int
}

/// The instruction class an ARM opcode belongs to.
///
/// Decoding stops at the class; operand fields are extracted by the
/// executor, which already has the raw opcode in hand.
#[derive(Debug, Clone, Copy, PartialEq, Eq, Structural)]
pub enum ArmKind {
    /// `BX Rn`
    BranchExchange,
    /// `B`/`BL label`
    Branch,
    /// `MRS`/`MSR`
    PsrTransfer,
    /// `AND`, `ADD`, `MOV`, `CMP`, … with register or immediate operand 2.
    DataProcessing,
    /// `MUL`/`MLA`
    Multiply,
    /// `UMULL`/`UMLAL`/`SMULL`/`SMLAL`
    MultiplyLong,
    /// `SWP`/`SWPB`
    SingleDataSwap,
    /// `LDRH`/`STRH`/`LDRSB`/`LDRSH`
    HalfwordTransfer,
    /// `LDR`/`STR` (word or byte)
    SingleDataTransfer,
    /// `LDM`/`STM`
    BlockDataTransfer,
    /// `SWI`
    SoftwareInterrupt,
    /// Coprocessor instructions: the GBA has no coprocessors, so these
    /// trap to the undefined-instruction vector.
    Coprocessor,
    /// Any encoding that is undefined on `ARMv4T`.
    Undefined,
}

/// Whether the data-processing encoding `op` is a compare without the S
/// bit, which stands for `MRS`/`MSR`.
pub open spec fn is_psr_encoding(op: u32) -> bool {
    op & 0x0190_0000 == 0x0100_0000
}

/// The class of the register-operand group (bits 27:25 clear).
pub open spec fn register_group_kind(op: u32) -> ArmKind {
    let bits7_4 = (op >> 4) & 0xF;
    let bits24_23 = (op >> 23) & 0b11;
    if op & 0x0FFF_FFF0 == 0x012F_FF10 {
        ArmKind::BranchExchange
    } else if bits7_4 == 0b1001 {
        if bits24_23 == 0 {
            ArmKind::Multiply
        } else if bits24_23 == 1 {
            ArmKind::MultiplyLong
        } else if bits24_23 == 2 && op & 0x0030_0F00 == 0 {
            ArmKind::SingleDataSwap
        } else {
            ArmKind::Undefined
        }
    } else if bits7_4 & 0b1001 == 0b1001 {
        ArmKind::HalfwordTransfer
    } else if is_psr_encoding(op) {
        ArmKind::PsrTransfer
    } else {
        ArmKind::DataProcessing
    }
}

/// The class of ARM opcode `op`.
pub open spec fn arm_kind(op: u32) -> ArmKind {
    let group = (op >> 25) & 0b111;
    if group == 0 {
        register_group_kind(op)
    } else if group == 1 {
        if !is_psr_encoding(op) {
            ArmKind::DataProcessing
        } else if op & 0x0020_0000 != 0 {
            ArmKind::PsrTransfer
        } else {
            ArmKind::Undefined
        }
    } else if group == 2 {
        ArmKind::SingleDataTransfer
    } else if group == 3 {
        if op & 0x10 != 0 {
            ArmKind::Undefined
        } else {
            ArmKind::SingleDataTransfer
        }
    } else if group == 4 {
        ArmKind::BlockDataTransfer
    } else if group == 5 {
        ArmKind::Branch
    } else if group == 7 && op & 0x0100_0000 != 0 {
        ArmKind::SoftwareInterrupt
    } else {
        ArmKind::Coprocessor
    }
}

/// Classifies an ARM opcode.
#[must_use]
pub fn decode(op: u32) -> (kind: ArmKind)
    ensures
        kind == arm_kind(op),
{
    // Bits 27:25 select the coarse group; a few groups need bits 7:4 too.
    let group: u32 = (op >> 25) & 0b111;
    match group {
        0b000 => {
            if op & 0x0FFF_FFF0 == 0x012F_FF10 {
                return ArmKind::BranchExchange;
            }
            let bits7_4: u32 = (op >> 4) & 0xF;
            if bits7_4 == 0b1001 {
                let bits24_23: u32 = (op >> 23) & 0b11;
                return match bits24_23 {
                    0b00 => ArmKind::Multiply,
                    0b01 => ArmKind::MultiplyLong,
                    0b10 if op & 0x0030_0F00 == 0 => ArmKind::SingleDataSwap,
                    _ => ArmKind::Undefined,
                };
            }
            if bits7_4 & 0b1001 == 0b1001 {
                // bit 7 and bit 4 set with bits 6:5 != 00
                return ArmKind::HalfwordTransfer;
            }
            // Data processing with a TST/TEQ/CMP/CMN opcode and S=0 is
            // really MRS/MSR.
            if op & 0x0190_0000 == 0x0100_0000 {
                return ArmKind::PsrTransfer;
            }
            ArmKind::DataProcessing
        },
        0b001 => {
            if op & 0x0190_0000 == 0x0100_0000 {
                // Immediate MSR; the MRS slot here is undefined.
                if op & 0x0020_0000 != 0 {
                    ArmKind::PsrTransfer
                } else {
                    ArmKind::Undefined
                }
            } else {
                ArmKind::DataProcessing
            }
        },
        0b010 => ArmKind::SingleDataTransfer,
        // Register-offset LDR/STR with bit 4 set is the undefined space.
        0b011 => {
            if op & 0x10 != 0 {
                ArmKind::Undefined
            } else {
                ArmKind::SingleDataTransfer
            }
        },
        0b100 => ArmKind::BlockDataTransfer,
        0b101 => ArmKind::Branch,
        0b110 => ArmKind::Coprocessor,
        _ => {
            if op & 0x0100_0000 != 0 {
                ArmKind::SoftwareInterrupt
            } else {
                ArmKind::Coprocessor
            }
        },
    }
}

impl CpuView {
    /// The effect of `B`/`BL`: bits 23:0 are a signed word offset.
    pub open spec fn arm_branch(self, op: u32) -> CpuView {
        let offset = (((op << 8) as i32) >> 6u32) as u32;
        let pc = self.regs.gpr[15];
        let linked = if op & (1u32 << 24) != 0 {
            self.set(14, pc.wrapping_sub(4))
        } else {
            self
        };
        linked.set_pc(pc.wrapping_add(offset))
    }

    /// The effect of `BX`: bit 0 of the target selects the state.
    pub open spec fn branch_exchange(self, target: u32) -> CpuView {
        self.with_cpsr(self.regs.cpsr.with(FLAG_T, target & 1 != 0)).set_pc(target)
    }

    /// The effect of ARM instruction `op` on the CPU and on memory, and its
    /// internal cycles.
    #[verifier::opaque]
    pub open spec fn execute_arm<M: Memory>(self, s: M::State, op: u32) -> (
        CpuView,
        M::State,
        u32,
    ) {
        if !condition_holds(self.regs.cpsr, (op >> 28) & 0xF) {
            (self, s, 0)
        } else {
            match arm_kind(op) {
                ArmKind::Branch => (self.arm_branch(op), s, 0),
                ArmKind::BranchExchange => (
                    self.branch_exchange(self.regs.gpr[low_field(op)]),
                    s,
                    0,
                ),
                ArmKind::PsrTransfer => (self.arm_psr_transfer(op), s, 0),
                ArmKind::DataProcessing => {
                    let (cpu, cycles) = self.arm_data_processing(op);
                    (cpu, s, cycles)
                },
                ArmKind::Multiply => {
                    let (cpu, cycles) = self.arm_multiply(op);
                    (cpu, s, cycles)
                },
                ArmKind::MultiplyLong => {
                    let (cpu, cycles) = self.arm_multiply_long(op);
                    (cpu, s, cycles)
                },
                ArmKind::SingleDataSwap => self.arm_swap::<M>(s, op),
                ArmKind::HalfwordTransfer => self.arm_halfword_transfer::<M>(s, op),
                ArmKind::SingleDataTransfer => self.arm_single_transfer::<M>(s, op),
                ArmKind::BlockDataTransfer => self.arm_block_transfer::<M>(s, op),
                ArmKind::SoftwareInterrupt => (self.software_interrupt((op >> 16) as u8), s, 0),
                ArmKind::Undefined | ArmKind::Coprocessor => (
                    self.enter_exception(Exception::Undefined),
                    s,
                    0,
                ),
            }
        }
    }
}

impl Cpu {
    /// Executes one ARM instruction and returns its internal cycles.
    pub(crate) fn execute_arm<M: Memory>(&mut self, mem: &mut M, op: u32) -> (cycles: u32)
        requires
            old(self).wf(),
            old(mem).wf(),
        ensures
            final(self).wf(),
            final(mem).wf(),
            M::elapsed(final(mem).state()) >= M::elapsed(old(mem).state()),
            (final(self)@, final(mem).state(), cycles) == old(self)@.execute_arm::<M>(
                old(mem).state(),
                op,
            ),
    {
        proof {
            reveal(CpuView::execute_arm);
        }
        if !self.regs.cpsr.condition(op >> 28) {
            return 0;
        }
        match decode(op) {
            ArmKind::Branch => self.arm_branch(op),
            ArmKind::BranchExchange => self.arm_branch_exchange(op),
            ArmKind::PsrTransfer => self.arm_psr_transfer(op),
            ArmKind::DataProcessing => self.arm_data_processing(op),
            ArmKind::Multiply => self.arm_multiply(op),
            ArmKind::MultiplyLong => self.arm_multiply_long(op),
            ArmKind::SingleDataSwap => self.arm_swap(mem, op),
            ArmKind::HalfwordTransfer => self.arm_halfword_transfer(mem, op),
            ArmKind::SingleDataTransfer => self.arm_single_transfer(mem, op),
            ArmKind::BlockDataTransfer => self.arm_block_transfer(mem, op),
            ArmKind::SoftwareInterrupt => {
                self.software_interrupt((op >> 16) as u8);
                0
            },
            ArmKind::Undefined | ArmKind::Coprocessor => {
                self.enter_exception(Exception::Undefined);
                0
            },
        }
    }

    /// `B`/`BL`: PC-relative branch with a 24-bit signed word offset.
    fn arm_branch(&mut self, op: u32) -> (cycles: u32)
        requires
            old(self).wf(),
        ensures
            final(self).wf(),
            final(self)@ == old(self)@.arm_branch(op),
            cycles == 0,
    {
        // Sign-extend bits 23:0 and scale to bytes.
        let offset: u32 = (((op << 8) as i32) >> 6u32) as u32;
        let pc: u32 = self.regs.get(PC);
        if op & (1u32 << 24) != 0 {
            self.regs.set(LR, pc.wrapping_sub(4));
        }
        self.set_pc(pc.wrapping_add(offset));
        0
    }

    /// `BX Rn`: branch and optionally switch to THUMB (bit 0 of Rn).
    fn arm_branch_exchange(&mut self, op: u32) -> (cycles: u32)
        requires
            old(self).wf(),
        ensures
            final(self).wf(),
            final(self)@ == old(self)@.branch_exchange(old(self)@.regs.gpr[low_field(op)]),
            cycles == 0,
    {
        let target: u32 = self.regs.get((op & 0xF) as usize);
        self.regs.cpsr.set_thumb(target & 1 != 0);
        self.set_pc(target);
        0
    }
}

} // verus!
