//! Sound register offsets relative to the I/O base address.

use vstd::prelude::*;

verus! {

pub const SOUND1CNT_L: u32 = 0x060;
pub const SOUND1CNT_H: u32 = 0x062;
pub const SOUND1CNT_X: u32 = 0x064;
pub const SOUND2CNT_L: u32 = 0x068;
pub const SOUND2CNT_H: u32 = 0x06C;
pub const SOUND3CNT_L: u32 = 0x070;
pub const SOUND3CNT_H: u32 = 0x072;
pub const SOUND3CNT_X: u32 = 0x074;
pub const SOUND4CNT_L: u32 = 0x078;
pub const SOUND4CNT_H: u32 = 0x07C;
pub const SOUNDCNT_L: u32 = 0x080;
pub const SOUNDCNT_H: u32 = 0x082;
pub const SOUNDCNT_X: u32 = 0x084;
pub const SOUNDBIAS: u32 = 0x088;
pub const WAVE_RAM: u32 = 0x090;
pub const FIFO_A: u32 = 0x0A0;
pub const FIFO_B: u32 = 0x0A4;

} // verus!
