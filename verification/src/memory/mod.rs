//! GBA memory map.
//!
//! The ARM7TDMI sees a flat 32-bit address space. The top byte of an address
//! selects the device; the remaining 24 bits are the offset within it. Most
//! regions are far smaller than 16 MiB and mirror across their page.
//!
//! ```text
//! 00000000-00003FFF  BIOS          16 KiB   (read-only, protected)
//! 02000000-0203FFFF  EWRAM        256 KiB   (on-board, 16-bit bus)
//! 03000000-03007FFF  IWRAM         32 KiB   (on-chip, 32-bit bus)
//! 04000000-040003FE  I/O registers
//! 05000000-050003FF  Palette RAM    1 KiB
//! 06000000-06017FFF  VRAM          96 KiB
//! 07000000-070003FF  OAM            1 KiB
//! 08000000-09FFFFFF  ROM  wait-state 0
//! 0A000000-0BFFFFFF  ROM  wait-state 1   (mirror of WS0)
//! 0C000000-0DFFFFFF  ROM  wait-state 2   (mirror of WS0)
//! 0E000000-0E00FFFF  SRAM / Flash  64 KiB (8-bit bus)
//! ```

use vstd::prelude::*;

pub mod backup;
pub mod base;
pub mod bus;
pub mod cartridge;
pub mod chip_laws;
pub mod device_laws;
pub mod dma;
pub mod eeprom;
pub mod gpio;
pub mod hidden;
pub mod interrupt;
pub mod io;
pub mod kept;
pub mod laws;
pub mod map_laws;
pub mod plain;
pub mod reg;
pub mod timers;
pub mod video;
pub mod wait;

pub use backup::{Backup, SaveType};
pub use bus::Bus;
pub use cartridge::{Cartridge, Header};
pub use gpio::Gpio;
pub use interrupt::Interrupt;
pub use io::IoRegisters;
pub use video::VideoMemory;
pub use wait::WaitStates;

verus! {

/// Byte-addressable memory as seen by the CPU and DMA.
///
/// Halfword and word accessors may receive unaligned addresses and ignore
/// the low bits, as the 16- and 32-bit buses do, except where the bus is
/// 8 bits wide (SRAM), which sees the exact address. The ARM7TDMI applies
/// its own rotation rules to what a load returns.
///
/// A memory is described by a mathematical `State` and by what each access
/// does to it: a read yields a value *and* a next state, because reading
/// takes bus time and may advance a serial device. An access never makes the
/// count of spent cycles go down.
pub trait Memory: Sized {
    /// What the memory holds, as far as accesses can tell.
    type State;

    /// The memory's own invariant.
    spec fn wf(&self) -> bool;

    /// The state this memory is in.
    spec fn state(&self) -> Self::State;

    /// The byte a read at `address` returns.
    spec fn value8(s: Self::State, address: u32) -> u8;

    /// The halfword a read at `address` returns.
    spec fn value16(s: Self::State, address: u32) -> u16;

    /// The word a read at `address` returns.
    spec fn value32(s: Self::State, address: u32) -> u32;

    /// The state after reading a byte.
    spec fn loaded8(s: Self::State, address: u32) -> Self::State;

    /// The state after reading a halfword.
    spec fn loaded16(s: Self::State, address: u32) -> Self::State;

    /// The state after reading a word.
    spec fn loaded32(s: Self::State, address: u32) -> Self::State;

    /// The state after writing a byte.
    spec fn stored8(s: Self::State, address: u32, value: u8) -> Self::State;

    /// The state after writing a halfword.
    spec fn stored16(s: Self::State, address: u32, value: u16) -> Self::State;

    /// The state after writing a word.
    spec fn stored32(s: Self::State, address: u32, value: u32) -> Self::State;

    /// Cycles spent on accesses since they were last taken.
    spec fn elapsed(s: Self::State) -> u32;

    /// The state after the access cycles have been taken.
    spec fn settled(s: Self::State) -> Self::State;

    /// The state after the bus was left idle for `cycles`.
    spec fn idled(s: Self::State, cycles: u32) -> Self::State;

    /// Reads a byte.
    fn read8(&mut self, address: u32) -> (value: u8)
        requires
            old(self).wf(),
        ensures
            final(self).wf(),
            Self::elapsed(final(self).state()) >= Self::elapsed(old(self).state()),
            value == Self::value8(old(self).state(), address),
            final(self).state() == Self::loaded8(old(self).state(), address),
    ;

    /// Reads a halfword from the halfword containing `address`.
    fn read16(&mut self, address: u32) -> (value: u16)
        requires
            old(self).wf(),
        ensures
            final(self).wf(),
            Self::elapsed(final(self).state()) >= Self::elapsed(old(self).state()),
            value == Self::value16(old(self).state(), address),
            final(self).state() == Self::loaded16(old(self).state(), address),
    ;

    /// Reads a word from the word containing `address`.
    fn read32(&mut self, address: u32) -> (value: u32)
        requires
            old(self).wf(),
        ensures
            final(self).wf(),
            Self::elapsed(final(self).state()) >= Self::elapsed(old(self).state()),
            value == Self::value32(old(self).state(), address),
            final(self).state() == Self::loaded32(old(self).state(), address),
    ;

    /// Writes a byte.
    fn write8(&mut self, address: u32, value: u8)
        requires
            old(self).wf(),
        ensures
            final(self).wf(),
            Self::elapsed(final(self).state()) >= Self::elapsed(old(self).state()),
            final(self).state() == Self::stored8(old(self).state(), address, value),
    ;

    /// Writes a halfword to the halfword containing `address`.
    fn write16(&mut self, address: u32, value: u16)
        requires
            old(self).wf(),
        ensures
            final(self).wf(),
            Self::elapsed(final(self).state()) >= Self::elapsed(old(self).state()),
            final(self).state() == Self::stored16(old(self).state(), address, value),
    ;

    /// Writes a word to the word containing `address`.
    fn write32(&mut self, address: u32, value: u32)
        requires
            old(self).wf(),
        ensures
            final(self).wf(),
            Self::elapsed(final(self).state()) >= Self::elapsed(old(self).state()),
            final(self).state() == Self::stored32(old(self).state(), address, value),
    ;

    /// Returns the cycles spent on accesses since the previous call and
    /// resets the count.
    fn take_access_cycles(&mut self) -> (cycles: u32)
        requires
            old(self).wf(),
        ensures
            final(self).wf(),
            cycles == Self::elapsed(old(self).state()),
            final(self).state() == Self::settled(old(self).state()),
    ;

    /// Reports `cycles` during which the bus was idle (the CPU was busy
    /// internally), so the cartridge prefetcher can work ahead.
    fn idle(&mut self, cycles: u32)
        requires
            old(self).wf(),
        ensures
            final(self).wf(),
            Self::elapsed(final(self).state()) >= Self::elapsed(old(self).state()),
            final(self).state() == Self::idled(old(self).state(), cycles),
    ;
}

/// Size of the BIOS ROM in bytes.
pub const BIOS_SIZE: usize = 16 * 1024;
/// Size of on-board work RAM (EWRAM) in bytes.
pub const EWRAM_SIZE: usize = 256 * 1024;
/// Size of on-chip work RAM (IWRAM) in bytes.
pub const IWRAM_SIZE: usize = 32 * 1024;
/// Size of the I/O register block in bytes.
pub const IO_SIZE: usize = 0x400;
/// Size of palette RAM in bytes.
pub const PALETTE_SIZE: usize = 1024;
/// Size of video RAM in bytes. Note: **not** a power of two.
pub const VRAM_SIZE: usize = 96 * 1024;
/// Size of object attribute memory in bytes.
pub const OAM_SIZE: usize = 1024;
/// Maximum cartridge ROM size in bytes.
pub const ROM_MAX_SIZE: usize = 32 * 1024 * 1024;
/// Size of cartridge SRAM in bytes.
pub const SRAM_SIZE: usize = 64 * 1024;

/// A device in the GBA address space, selected by the top byte of an address.
#[derive(Debug, Clone, Copy, PartialEq, Eq, Hash, Structural)]
pub enum MemoryRegion {
    /// BIOS ROM.
    Bios,
    /// On-board work RAM.
    Ewram,
    /// On-chip work RAM.
    Iwram,
    /// Memory-mapped I/O registers.
    Io,
    /// Palette RAM.
    Palette,
    /// Video RAM.
    Vram,
    /// Object attribute memory.
    Oam,
    /// Cartridge ROM (any of the three wait-state mirrors).
    Rom,
    /// Cartridge SRAM / Flash.
    Sram,
}

/// The region that page `page` (the top byte of an address) selects.
pub open spec fn region_of_page(page: u32) -> Option<MemoryRegion> {
    if page == 0x00 {
        Some(MemoryRegion::Bios)
    } else if page == 0x02 {
        Some(MemoryRegion::Ewram)
    } else if page == 0x03 {
        Some(MemoryRegion::Iwram)
    } else if page == 0x04 {
        Some(MemoryRegion::Io)
    } else if page == 0x05 {
        Some(MemoryRegion::Palette)
    } else if page == 0x06 {
        Some(MemoryRegion::Vram)
    } else if page == 0x07 {
        Some(MemoryRegion::Oam)
    } else if 0x08 <= page <= 0x0D {
        Some(MemoryRegion::Rom)
    } else if page == 0x0E {
        Some(MemoryRegion::Sram)
    } else {
        None
    }
}

/// The region that `address` falls in.
pub open spec fn region_of(address: u32) -> Option<MemoryRegion> {
    region_of_page(address >> 24)
}

impl MemoryRegion {
    /// Classifies `address` by its top byte.
    ///
    /// Returns `None` for the unused pages (`0x01`, `0x0F`–`0xFF`), which on
    /// real hardware read back as open bus.
    #[must_use]
    pub fn from_address(address: u32) -> (region: Option<Self>)
        ensures
            region == region_of(address),
    {
        let page: u32 = address >> 24;
        match page {
            0x00 => Some(Self::Bios),
            0x02 => Some(Self::Ewram),
            0x03 => Some(Self::Iwram),
            0x04 => Some(Self::Io),
            0x05 => Some(Self::Palette),
            0x06 => Some(Self::Vram),
            0x07 => Some(Self::Oam),
            0x08..=0x0D => Some(Self::Rom),
            0x0E => Some(Self::Sram),
            _ => None,
        }
    }

    /// Size of the backing storage for this region in bytes.
    #[must_use]
    pub fn size(self) -> (bytes: usize)
        ensures
            bytes == match self {
                MemoryRegion::Bios => BIOS_SIZE,
                MemoryRegion::Ewram => EWRAM_SIZE,
                MemoryRegion::Iwram => IWRAM_SIZE,
                MemoryRegion::Io => IO_SIZE,
                MemoryRegion::Palette => PALETTE_SIZE,
                MemoryRegion::Vram => VRAM_SIZE,
                MemoryRegion::Oam => OAM_SIZE,
                MemoryRegion::Rom => ROM_MAX_SIZE,
                MemoryRegion::Sram => SRAM_SIZE,
            },
    {
        match self {
            Self::Bios => BIOS_SIZE,
            Self::Ewram => EWRAM_SIZE,
            Self::Iwram => IWRAM_SIZE,
            Self::Io => IO_SIZE,
            Self::Palette => PALETTE_SIZE,
            Self::Vram => VRAM_SIZE,
            Self::Oam => OAM_SIZE,
            Self::Rom => ROM_MAX_SIZE,
            Self::Sram => SRAM_SIZE,
        }
    }
}

} // verus!
