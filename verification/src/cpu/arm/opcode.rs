//! Data-processing opcodes (bits 24:21 of the instruction).

use vstd::prelude::*;

verus! {

pub const AND: u32 = 0x0;
pub const EOR: u32 = 0x1;
pub const SUB: u32 = 0x2;
pub const RSB: u32 = 0x3;
pub const ADD: u32 = 0x4;
pub const ADC: u32 = 0x5;
pub const SBC: u32 = 0x6;
pub const RSC: u32 = 0x7;
pub const TST: u32 = 0x8;
pub const TEQ: u32 = 0x9;
pub const CMP: u32 = 0xA;
pub const CMN: u32 = 0xB;
pub const ORR: u32 = 0xC;
pub const MOV: u32 = 0xD;
pub const BIC: u32 = 0xE;
// 0xF is MVN, the remaining case.

} // verus!
