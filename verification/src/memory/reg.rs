//! Register offsets relative to the I/O base address.

use vstd::prelude::*;

// Sound: see `crate::apu::reg` for the full map.
pub use crate::apu::reg::{SOUNDBIAS, SOUNDCNT_H, SOUNDCNT_L, SOUNDCNT_X};

verus! {

// LCD
pub const DISPCNT: u32 = 0x000;
pub const DISPSTAT: u32 = 0x004;
pub const VCOUNT: u32 = 0x006;
pub const BG0CNT: u32 = 0x008;
pub const BG1CNT: u32 = 0x00A;
pub const BG2CNT: u32 = 0x00C;
pub const BG3CNT: u32 = 0x00E;
pub const BG0HOFS: u32 = 0x010;
pub const BG0VOFS: u32 = 0x012;
pub const BG1HOFS: u32 = 0x014;
pub const BG1VOFS: u32 = 0x016;
pub const BG2HOFS: u32 = 0x018;
pub const BG2VOFS: u32 = 0x01A;
pub const BG3HOFS: u32 = 0x01C;
pub const BG3VOFS: u32 = 0x01E;
pub const BG2PA: u32 = 0x020;
pub const BG2PB: u32 = 0x022;
pub const BG2PC: u32 = 0x024;
pub const BG2PD: u32 = 0x026;
pub const BG2X: u32 = 0x028;
pub const BG2Y: u32 = 0x02C;
pub const BG3PA: u32 = 0x030;
pub const BG3PB: u32 = 0x032;
pub const BG3PC: u32 = 0x034;
pub const BG3PD: u32 = 0x036;
pub const BG3X: u32 = 0x038;
pub const BG3Y: u32 = 0x03C;
pub const WIN0H: u32 = 0x040;
pub const WIN1H: u32 = 0x042;
pub const WIN0V: u32 = 0x044;
pub const WIN1V: u32 = 0x046;
pub const WININ: u32 = 0x048;
pub const WINOUT: u32 = 0x04A;
pub const MOSAIC: u32 = 0x04C;
pub const BLDCNT: u32 = 0x050;
pub const BLDALPHA: u32 = 0x052;
pub const BLDY: u32 = 0x054;

// DMA
pub const DMA0SAD: u32 = 0x0B0;
pub const DMA0CNT_H: u32 = 0x0BA;
pub const DMA3CNT_H: u32 = 0x0DE;

// Timers
pub const TM0CNT_L: u32 = 0x100;
pub const TM0CNT_H: u32 = 0x102;
pub const TM3CNT_H: u32 = 0x10E;

// Keypad
pub const KEYINPUT: u32 = 0x130;
pub const KEYCNT: u32 = 0x132;

// Interrupts, wait-state and power control
pub const IE: u32 = 0x200;
pub const IF: u32 = 0x202;
pub const WAITCNT: u32 = 0x204;
pub const IME: u32 = 0x208;
pub const POSTFLG: u32 = 0x300;
pub const HALTCNT: u32 = 0x301;

} // verus!
