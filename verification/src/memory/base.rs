//! Base address of each region of the address space.

use vstd::prelude::*;

verus! {

/// BIOS.
pub const BIOS: u32 = 0x0000_0000;
/// On-board work RAM.
pub const EWRAM: u32 = 0x0200_0000;
/// On-chip work RAM.
pub const IWRAM: u32 = 0x0300_0000;
/// Memory-mapped I/O registers.
pub const IO: u32 = 0x0400_0000;
/// Palette RAM.
pub const PALETTE: u32 = 0x0500_0000;
/// Video RAM.
pub const VRAM: u32 = 0x0600_0000;
/// Object attribute memory.
pub const OAM: u32 = 0x0700_0000;
/// Cartridge ROM, wait-state 0.
pub const ROM_WS0: u32 = 0x0800_0000;
/// Cartridge ROM, wait-state 1.
pub const ROM_WS1: u32 = 0x0A00_0000;
/// Cartridge ROM, wait-state 2.
pub const ROM_WS2: u32 = 0x0C00_0000;
/// Cartridge SRAM / Flash.
pub const SRAM: u32 = 0x0E00_0000;

} // verus!
