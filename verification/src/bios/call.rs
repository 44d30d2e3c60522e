//! System call numbers.

use vstd::prelude::*;

verus! {

pub const SOFT_RESET: u8 = 0x00;
pub const REGISTER_RAM_RESET: u8 = 0x01;
pub const HALT: u8 = 0x02;
pub const STOP: u8 = 0x03;
pub const INTR_WAIT: u8 = 0x04;
pub const VBLANK_INTR_WAIT: u8 = 0x05;
pub const DIV: u8 = 0x06;
pub const DIV_ARM: u8 = 0x07;
pub const SQRT: u8 = 0x08;
pub const ARCTAN: u8 = 0x09;
pub const ARCTAN2: u8 = 0x0A;
pub const CPU_SET: u8 = 0x0B;
pub const CPU_FAST_SET: u8 = 0x0C;
pub const GET_BIOS_CHECKSUM: u8 = 0x0D;
pub const BG_AFFINE_SET: u8 = 0x0E;
pub const OBJ_AFFINE_SET: u8 = 0x0F;
pub const BIT_UNPACK: u8 = 0x10;
pub const LZ77_UNCOMP_WRAM: u8 = 0x11;
pub const LZ77_UNCOMP_VRAM: u8 = 0x12;
pub const HUFF_UNCOMP: u8 = 0x13;
pub const RL_UNCOMP_WRAM: u8 = 0x14;
pub const RL_UNCOMP_VRAM: u8 = 0x15;
pub const SOUND_BIAS: u8 = 0x19;

} // verus!
