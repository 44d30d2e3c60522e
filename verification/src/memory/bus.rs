//! The system bus: routes CPU/DMA accesses to the right device.
//!
//! The ARM7TDMI forces alignment itself (and rotates misaligned loads), so
//! that logic lives in the CPU, not here.

use vstd::prelude::*;

use crate::bytes::{get16, get32, half_at, set16, set32, with_half, with_word, word_at};
use crate::error::{GbaError, Result};
use crate::memory::backup::{Backup, BackupView};
use crate::memory::cartridge::{Cartridge, CartridgeView};
use crate::memory::eeprom::EepromView;
use crate::memory::gpio::{port_covers, Gpio, GpioView};
use crate::memory::io::{reg, IoRegisters, IoView};
use crate::memory::video::{
    oam_position, palette_position, vram_position, VideoMemory, VideoView,
};
use crate::memory::wait::{WaitStates, WaitStatesView};
use crate::memory::{region_of, Memory, MemoryRegion, BIOS_SIZE, EWRAM_SIZE, IWRAM_SIZE};

verus! {

broadcast use crate::bits::group_mask_bounds;

/// Halfwords the prefetch buffer can hold.
pub const PREFETCH_DEPTH: u32 = 8;

/// The most cycles that prefetching can make use of: the whole buffer at the
/// slowest possible S timing.
pub const PREFETCH_CAP: u32 = PREFETCH_DEPTH * 9;

/// The GBA memory bus and every memory-mapped device hanging off it.
#[derive(Debug)]
pub struct Bus {
    /// BIOS ROM.
    pub bios: Vec<u8>,
    /// On-board work RAM.
    pub ewram: Vec<u8>,
    /// On-chip work RAM.
    pub iwram: Vec<u8>,
    /// Save memory at `0x0E00_0000`.
    pub backup: Backup,
    /// Memory-mapped I/O registers.
    pub io: IoRegisters,
    /// Palette RAM, VRAM and OAM.
    pub video: VideoMemory,
    /// The inserted cartridge.
    pub cartridge: Cartridge,
    /// The cartridge's GPIO port.
    pub gpio: Gpio,
    /// Access costs, decoded from `WAITCNT`.
    pub wait: WaitStates,
    /// Cycles spent on accesses since the last [`Memory::take_access_cycles`].
    pub access_cycles: u32,
    /// Address just past the previous access, for sequential detection.
    pub next_sequential: u32,
    /// Address just past the previous *cartridge* access: where the
    /// prefetcher continues from.
    pub rom_next: u32,
    /// Cycles the prefetcher has had to itself since the last cartridge
    /// access; every `S` cycles buffer one more halfword.
    pub prefetch_cycles: u32,
}

/// The mathematical bus.
pub struct BusView {
    /// BIOS ROM.
    pub bios: Seq<u8>,
    /// On-board work RAM.
    pub ewram: Seq<u8>,
    /// On-chip work RAM.
    pub iwram: Seq<u8>,
    /// Save memory.
    pub backup: BackupView,
    /// I/O registers.
    pub io: IoView,
    /// Palette RAM, VRAM and OAM.
    pub video: VideoView,
    /// The inserted cartridge.
    pub cartridge: CartridgeView,
    /// The cartridge's GPIO port.
    pub gpio: GpioView,
    /// Access costs.
    pub wait: WaitStatesView,
    /// Cycles spent on accesses since they were last taken.
    pub access_cycles: u32,
    /// Address just past the previous access.
    pub next_sequential: u32,
    /// Address just past the previous cartridge access.
    pub rom_next: u32,
    /// Cycles the prefetcher has had to itself.
    pub prefetch_cycles: u32,
}

impl View for Bus {
    type V = BusView;

    open spec fn view(&self) -> BusView {
        BusView {
            bios: self.bios@,
            ewram: self.ewram@,
            iwram: self.iwram@,
            backup: self.backup@,
            io: self.io@,
            video: self.video@,
            cartridge: self.cartridge@,
            gpio: self.gpio@,
            wait: self.wait@,
            access_cycles: self.access_cycles,
            next_sequential: self.next_sequential,
            rom_next: self.rom_next,
            prefetch_cycles: self.prefetch_cycles,
        }
    }
}

/// Offset of an address within its 16 MiB page.
pub open spec fn offset_in_page(address: u32) -> u32 {
    address & 0x00FF_FFFF
}

/// Offset of an address within the cartridge ROM.
pub open spec fn rom_offset(address: u32) -> u32 {
    address & 0x01FF_FFFF
}

/// Where an address lies in on-board work RAM.
pub open spec fn ewram_position(address: u32) -> int {
    (offset_in_page(address) & 0x3_FFFF) as int
}

/// Where an address lies in on-chip work RAM.
pub open spec fn iwram_position(address: u32) -> int {
    (offset_in_page(address) & 0x7FFF) as int
}

/// The smaller of two numbers.
pub open spec fn smaller(a: int, b: int) -> int {
    if a < b {
        a
    } else {
        b
    }
}

/// Whether an address falls in one of the cartridge ROM pages.
pub open spec fn in_rom_pages(address: u32) -> bool {
    0x08 <= address >> 24 <= 0x0D
}

/// Whether an access at `address` continues from `from`. The cartridge
/// restarts at every 128 KiB boundary.
pub open spec fn continues_in_rom(address: u32, from: u32) -> bool {
    address == from && address & 0x1_FFFF != 0
}

impl BusView {
    /// The bus at power-on, with `cartridge` inserted and an all-zero BIOS.
    pub open spec fn initial(cartridge: CartridgeView) -> BusView {
        BusView {
            bios: Seq::new(BIOS_SIZE as nat, |i: int| 0u8),
            ewram: Seq::new(EWRAM_SIZE as nat, |i: int| 0u8),
            iwram: Seq::new(IWRAM_SIZE as nat, |i: int| 0u8),
            backup: BackupView::fresh(cartridge.save_type),
            io: IoView::initial(),
            video: VideoView::initial(),
            cartridge,
            gpio: GpioView::initial(),
            wait: WaitStatesView::decoded(0),
            access_cycles: 0,
            next_sequential: u32::MAX,
            rom_next: u32::MAX,
            prefetch_cycles: 0,
        }
    }

    /// The cycles that `width` bytes of a cartridge access take when it
    /// continues from the last one with prefetch enabled: one per halfword
    /// already buffered, an `S` access for each of the others.
    pub open spec fn prefetched_cost(self, address: u32, width: u32) -> u32 {
        let s = self.wait.page(address).s16 as int;
        let halfwords = (width + 1) / 2;
        let buffered = smaller(self.prefetch_cycles as int / s, PREFETCH_DEPTH as int);
        let hit = smaller(buffered, halfwords);
        (hit + (halfwords - hit) * s) as u32
    }

    /// The cycles that an access of `width` bytes at `address` takes.
    pub open spec fn cost(self, address: u32, width: u32) -> u32 {
        let page = self.wait.page(address);
        if in_rom_pages(address) {
            if self.wait.prefetch && continues_in_rom(address, self.rom_next) {
                self.prefetched_cost(address, width)
            } else {
                page.cost(width, continues_in_rom(address, self.next_sequential))
            }
        } else {
            page.cost(width, address == self.next_sequential)
        }
    }

    /// The bus after `cycles` without a cartridge access.
    pub open spec fn idled(self, cycles: u32) -> BusView {
        BusView {
            prefetch_cycles: smaller(self.prefetch_cycles + cycles, PREFETCH_CAP as int) as u32,
            ..self
        }
    }

    /// The bus after an access of `width` bytes at `address` is charged.
    #[verifier::opaque]
    pub open spec fn accounted(self, address: u32, width: u32) -> BusView {
        let cycles = self.cost(address, width);
        let charged = if in_rom_pages(address) {
            BusView { rom_next: address.wrapping_add(width), prefetch_cycles: 0, ..self }
        } else {
            self.idled(cycles)
        };
        BusView {
            access_cycles: self.access_cycles.saturating_add(cycles),
            next_sequential: address.wrapping_add(width),
            ..charged
        }
    }

    /// Whether a ROM-area address reaches the EEPROM chip instead of the
    /// ROM: the whole `0x0D` page for carts up to 16 MiB, only its top
    /// 256 bytes for larger ones.
    pub open spec fn eeprom_at(self, address: u32) -> bool {
        &&& address >> 24 == 0x0D
        &&& self.backup is Eeprom
        &&& self.cartridge.rom.len() <= 0x100_0000 || address & 0x00FF_FFFF >= 0x00FF_FF00
    }

    /// The EEPROM chip.
    pub open spec fn eeprom(self) -> EepromView {
        self.backup->Eeprom_0
    }

    /// The bus with its EEPROM chip replaced.
    pub open spec fn with_eeprom(self, eeprom: EepromView) -> BusView {
        BusView { backup: BackupView::Eeprom(eeprom), ..self }
    }

    /// The halfword at ROM offset `off`, through the GPIO port.
    pub open spec fn rom_half(self, off: u32) -> u16 {
        match self.gpio.read16(off) {
            Some(value) => value,
            None => self.cartridge.value16(off),
        }
    }

    /// The byte at ROM offset `off`, through the GPIO port.
    pub open spec fn rom_byte(self, off: u32) -> u8 {
        match self.gpio.read16(off & !1u32) {
            Some(value) => (value >> (((off & 1) * 8) as u16)) as u8,
            None => self.cartridge.value8(off),
        }
    }

    /// The word at ROM offset `off`, through the GPIO port.
    pub open spec fn rom_word(self, off: u32) -> u32 {
        if self.gpio.readable && port_covers(off) {
            (self.rom_half(off) as u32) | ((self.rom_half((off + 2) as u32) as u32) << 16)
        } else {
            self.cartridge.value32(off)
        }
    }

    /// The byte that a read returns.
    #[verifier::opaque]
    pub open spec fn value8(self, address: u32) -> u8 {
        let off = offset_in_page(address);
        match region_of(address) {
            Some(MemoryRegion::Bios) => if off < BIOS_SIZE {
                self.bios[off as int]
            } else {
                0
            },
            Some(MemoryRegion::Ewram) => self.ewram[ewram_position(address)],
            Some(MemoryRegion::Iwram) => self.iwram[iwram_position(address)],
            Some(MemoryRegion::Io) => self.io.read8(off),
            Some(MemoryRegion::Palette) => self.video.palette[palette_position(off)],
            Some(MemoryRegion::Vram) => self.video.vram[vram_position(off)],
            Some(MemoryRegion::Oam) => self.video.oam[oam_position(off)],
            Some(MemoryRegion::Rom) => if self.eeprom_at(address) {
                self.eeprom().reply() as u8
            } else {
                self.rom_byte(rom_offset(address))
            },
            Some(MemoryRegion::Sram) => self.backup.value(off),
            None => 0,
        }
    }

    /// The halfword that a read at even `address` returns; the 8-bit SRAM
    /// bus sees the `exact` address and repeats its byte.
    #[verifier::opaque]
    pub open spec fn value16_at(self, address: u32, exact: u32) -> u16 {
        let off = offset_in_page(address);
        match region_of(address) {
            Some(MemoryRegion::Bios) => if off + 2 <= BIOS_SIZE {
                half_at(self.bios, off as int)
            } else {
                0
            },
            Some(MemoryRegion::Ewram) => half_at(self.ewram, ewram_position(address)),
            Some(MemoryRegion::Iwram) => half_at(self.iwram, iwram_position(address)),
            Some(MemoryRegion::Io) => self.io.read16(off),
            Some(MemoryRegion::Palette) => half_at(self.video.palette, palette_position(off)),
            Some(MemoryRegion::Vram) => half_at(self.video.vram, vram_position(off)),
            Some(MemoryRegion::Oam) => half_at(self.video.oam, oam_position(off)),
            Some(MemoryRegion::Rom) => if self.eeprom_at(address) {
                self.eeprom().reply()
            } else {
                self.rom_half(rom_offset(address))
            },
            Some(MemoryRegion::Sram) => (self.backup.value(offset_in_page(exact))
                * 0x0101) as u16,
            None => 0,
        }
    }

    /// The halfword that a read returns.
    pub open spec fn value16(self, exact: u32) -> u16 {
        self.value16_at(exact & !1u32, exact)
    }

    /// The word that a read at aligned `address` returns; the 8-bit SRAM bus
    /// sees the `exact` address and repeats its byte.
    #[verifier::opaque]
    pub open spec fn value32_at(self, address: u32, exact: u32) -> u32 {
        let off = offset_in_page(address);
        match region_of(address) {
            Some(MemoryRegion::Bios) => if off + 4 <= BIOS_SIZE {
                word_at(self.bios, off as int)
            } else {
                0
            },
            Some(MemoryRegion::Ewram) => word_at(self.ewram, ewram_position(address)),
            Some(MemoryRegion::Iwram) => word_at(self.iwram, iwram_position(address)),
            Some(MemoryRegion::Io) => self.io.read32(off),
            Some(MemoryRegion::Palette) => word_at(self.video.palette, palette_position(off)),
            Some(MemoryRegion::Vram) => word_at(self.video.vram, vram_position(off)),
            Some(MemoryRegion::Oam) => word_at(self.video.oam, oam_position(off)),
            Some(MemoryRegion::Rom) => if self.eeprom_at(address) {
                (self.eeprom().reply() as u32) | ((self.eeprom().read().reply() as u32) << 16)
            } else {
                self.rom_word(rom_offset(address))
            },
            Some(MemoryRegion::Sram) => (self.backup.value(offset_in_page(exact))
                * 0x0101_0101) as u32,
            None => 0,
        }
    }

    /// The word that a read returns.
    pub open spec fn value32(self, exact: u32) -> u32 {
        self.value32_at(exact & !3u32, exact)
    }

    /// The bus after reading `width` bytes at aligned `address`: the access
    /// is charged, and a read of the EEPROM chip advances its reply, by one
    /// bit per halfword.
    #[verifier::opaque]
    pub open spec fn loaded(self, address: u32, width: u32) -> BusView {
        let charged = self.accounted(address, width);
        if !self.eeprom_at(address) {
            charged
        } else if width == 4 {
            charged.with_eeprom(self.eeprom().read().read())
        } else {
            charged.with_eeprom(self.eeprom().read())
        }
    }

    /// The bus with the timing table decoded again, if an I/O write of
    /// `width` bytes at `offset` may have touched `WAITCNT`.
    pub open spec fn retimed(self, offset: u32, width: u32) -> BusView {
        if offset < reg::WAITCNT + 2 && offset + width > reg::WAITCNT {
            BusView { wait: WaitStatesView::decoded(self.io.read16(reg::WAITCNT)), ..self }
        } else {
            self
        }
    }

    /// The bus with the I/O block replaced.
    pub open spec fn with_io(self, io: IoView) -> BusView {
        BusView { io, ..self }
    }

    /// The bus with the video memories replaced.
    pub open spec fn with_video(self, video: VideoView) -> BusView {
        BusView { video, ..self }
    }

    /// The effect of writing a byte, apart from its timing. Video memory is
    /// on a 16-bit bus: byte writes to palette RAM and VRAM (background
    /// area only) are duplicated into both bytes of the halfword, byte
    /// writes to OAM and the VRAM object area are ignored.
    #[verifier::opaque]
    pub open spec fn put8(self, address: u32, value: u8) -> BusView {
        let off = offset_in_page(address);
        let doubled = (value * 0x0101) as u16;
        match region_of(address) {
            Some(MemoryRegion::Ewram) => BusView {
                ewram: self.ewram.update(ewram_position(address), value),
                ..self
            },
            Some(MemoryRegion::Iwram) => BusView {
                iwram: self.iwram.update(iwram_position(address), value),
                ..self
            },
            Some(MemoryRegion::Io) => self.with_io(self.io.write8(off, value)).retimed(off, 1),
            Some(MemoryRegion::Palette) => {
                let index = palette_position(off) - palette_position(off) % 2;
                self.with_video(
                    VideoView {
                        palette: with_half(self.video.palette, index, doubled),
                        ..self.video
                    },
                )
            },
            Some(MemoryRegion::Vram) => {
                let index = vram_position(off) - vram_position(off) % 2;
                if index < 0x1_0000 {
                    self.with_video(
                        VideoView {
                            vram: with_half(self.video.vram, index, doubled),
                            ..self.video
                        },
                    )
                } else {
                    self
                }
            },
            Some(MemoryRegion::Sram) => BusView { backup: self.backup.write(off, value), ..self },
            Some(MemoryRegion::Rom) => if self.eeprom_at(address) {
                self.with_eeprom(self.eeprom().write(value as u16))
            } else {
                self
            },
            _ => self,
        }
    }

    /// The effect of writing a halfword at even `address`, apart from its
    /// timing. On the 8-bit SRAM bus one byte reaches the chip, the one the
    /// store would have put at the `exact` address.
    #[verifier::opaque]
    pub open spec fn put16(self, address: u32, exact: u32, value: u16) -> BusView {
        let off = offset_in_page(address);
        match region_of(address) {
            Some(MemoryRegion::Ewram) => BusView {
                ewram: with_half(self.ewram, ewram_position(address), value),
                ..self
            },
            Some(MemoryRegion::Iwram) => BusView {
                iwram: with_half(self.iwram, iwram_position(address), value),
                ..self
            },
            Some(MemoryRegion::Io) => self.with_io(self.io.write16(off, value)).retimed(off, 2),
            Some(MemoryRegion::Palette) => self.with_video(
                VideoView {
                    palette: with_half(self.video.palette, palette_position(off), value),
                    ..self.video
                },
            ),
            Some(MemoryRegion::Vram) => self.with_video(
                VideoView {
                    vram: with_half(self.video.vram, vram_position(off), value),
                    ..self.video
                },
            ),
            Some(MemoryRegion::Oam) => self.with_video(
                VideoView {
                    oam: with_half(self.video.oam, oam_position(off), value),
                    ..self.video
                },
            ),
            Some(MemoryRegion::Sram) => BusView {
                backup: self.backup.write(
                    offset_in_page(exact),
                    (value >> (((exact & 1) * 8) as u16)) as u8,
                ),
                ..self
            },
            Some(MemoryRegion::Rom) => if self.eeprom_at(address) {
                self.with_eeprom(self.eeprom().write(value))
            } else {
                BusView { gpio: self.gpio.write16(rom_offset(address), value), ..self }
            },
            _ => self,
        }
    }

    /// The effect of writing a word at aligned `address`, apart from its
    /// timing. Serial devices in the ROM area see two halfwords.
    #[verifier::opaque]
    pub open spec fn put32(self, address: u32, exact: u32, value: u32) -> BusView {
        let off = offset_in_page(address);
        match region_of(address) {
            Some(MemoryRegion::Ewram) => BusView {
                ewram: with_word(self.ewram, ewram_position(address), value),
                ..self
            },
            Some(MemoryRegion::Iwram) => BusView {
                iwram: with_word(self.iwram, iwram_position(address), value),
                ..self
            },
            Some(MemoryRegion::Io) => self.with_io(self.io.write32(off, value)).retimed(off, 4),
            Some(MemoryRegion::Palette) => self.with_video(
                VideoView {
                    palette: with_word(self.video.palette, palette_position(off), value),
                    ..self.video
                },
            ),
            Some(MemoryRegion::Vram) => self.with_video(
                VideoView {
                    vram: with_word(self.video.vram, vram_position(off), value),
                    ..self.video
                },
            ),
            Some(MemoryRegion::Oam) => self.with_video(
                VideoView {
                    oam: with_word(self.video.oam, oam_position(off), value),
                    ..self.video
                },
            ),
            Some(MemoryRegion::Sram) => BusView {
                backup: self.backup.write(
                    offset_in_page(exact),
                    (value >> ((exact & 3) * 8) as u32) as u8,
                ),
                ..self
            },
            Some(MemoryRegion::Rom) => if self.eeprom_at(address) {
                self.with_eeprom(
                    self.eeprom().write(value as u16).write((value >> 16) as u16),
                )
            } else {
                BusView {
                    gpio: self.gpio.write16(rom_offset(address), value as u16).write16(
                        (rom_offset(address) + 2) as u32,
                        (value >> 16) as u16,
                    ),
                    ..self
                }
            },
            _ => self,
        }
    }

    /// The bus after a word is put into the BIOS.
    pub open spec fn bios_poked(self, address: u32, value: u32) -> BusView {
        if address + 4 <= BIOS_SIZE {
            BusView { bios: with_word(self.bios, address as int, value), ..self }
        } else {
            self
        }
    }

    /// The bus after a DMA of `units` to or from `address`: the EEPROM may
    /// learn its size from it.
    pub open spec fn eeprom_hinted(self, address: u32, units: u32) -> BusView {
        if self.eeprom_at(address) {
            self.with_eeprom(self.eeprom().hinted(units))
        } else {
            self
        }
    }
}

/// Aligned addresses have aligned offsets.
pub(crate) proof fn lemma_aligned_offsets(a: u32)
    ensures
        ((a & !1u32) & 0x00FF_FFFF) % 2 == 0,
        ((a & !1u32) & 0x00FF_FFFF & 0x3_FFFF) % 2 == 0,
        ((a & !1u32) & 0x00FF_FFFF & 0x7FFF) % 2 == 0,
        ((a & !1u32) & 0x00FF_FFFF & 0x3FF) % 2 == 0,
        ((a & !1u32) & 0x00FF_FFFF & 0x1_FFFF) % 2 == 0,
        ((a & !3u32) & 0x00FF_FFFF) % 4 == 0,
        ((a & !3u32) & 0x00FF_FFFF & 0x3_FFFF) % 4 == 0,
        ((a & !3u32) & 0x00FF_FFFF & 0x7FFF) % 4 == 0,
        ((a & !3u32) & 0x00FF_FFFF & 0x3FF) % 4 == 0,
        ((a & !3u32) & 0x00FF_FFFF & 0x1_FFFF) % 4 == 0,
{
    crate::bits::word_facts(a, 0, 0, 0);
}

#[inline]
fn page_offset(address: u32) -> (offset: u32)
    ensures
        offset == offset_in_page(address),
{
    address & 0x00FF_FFFF
}

impl Clone for Bus {
    fn clone(&self) -> (copy: Self)
        ensures
            copy@ == self@,
            self.wf() ==> copy.wf(),
    {
        let bios = self.bios.clone();
        let ewram = self.ewram.clone();
        let iwram = self.iwram.clone();
        assert(bios@ =~= self.bios@);
        assert(ewram@ =~= self.ewram@);
        assert(iwram@ =~= self.iwram@);
        Self {
            bios,
            ewram,
            iwram,
            backup: self.backup.clone(),
            io: self.io.clone(),
            video: self.video.clone(),
            cartridge: self.cartridge.clone(),
            gpio: self.gpio,
            wait: self.wait,
            access_cycles: self.access_cycles,
            next_sequential: self.next_sequential,
            rom_next: self.rom_next,
            prefetch_cycles: self.prefetch_cycles,
        }
    }
}

impl Bus {
    /// Creates a bus with the given cartridge and an all-zero BIOS.
    ///
    /// Without a real BIOS image the CPU must be started directly at the
    /// cartridge entry point (`0x0800_0000`). Use [`Bus::load_bios`] to
    /// install one.
    #[must_use]
    pub fn new(cartridge: Cartridge) -> (bus: Self)
        requires
            cartridge.wf(),
        ensures
            bus.wf(),
            bus@ == BusView::initial(cartridge@),
    {
        let bus = Self {
            bios: vec![0u8; BIOS_SIZE],
            ewram: vec![0u8; EWRAM_SIZE],
            iwram: vec![0u8; IWRAM_SIZE],
            backup: Backup::for_type(cartridge.save_type()),
            io: IoRegisters::new(),
            video: VideoMemory::new(),
            cartridge,
            gpio: Gpio::default(),
            wait: WaitStates::default(),
            access_cycles: 0,
            next_sequential: u32::MAX,
            rom_next: u32::MAX,
            prefetch_cycles: 0,
        };
        proof {
            let initial = BusView::initial(cartridge@);
            assert(bus@.bios =~= initial.bios);
            assert(bus@.ewram =~= initial.ewram);
            assert(bus@.iwram =~= initial.iwram);
        }
        bus
    }

    /// Charges an access of `width` bytes at `address`.
    ///
    /// An access is sequential when it continues directly from the
    /// previous one; the cartridge additionally restarts at every 128 KiB
    /// boundary. With prefetch enabled, the cartridge keeps fetching
    /// halfwords on its own whenever the bus is busy elsewhere, and an
    /// access that continues from the last cartridge access takes one
    /// cycle per halfword already buffered.
    #[inline]
    fn account(&mut self, address: u32, width: u32)
        requires
            old(self).wf(),
            width == 1 || width == 2 || width == 4,
        ensures
            final(self).wf(),
            final(self)@ == old(self)@.accounted(address, width),
    {
        proof {
            reveal(BusView::accounted);
        }
        let page = self.wait.page(address);
        let in_rom = address >> 24 >= 0x08 && address >> 24 <= 0x0D;
        let cycles: u32 = if in_rom {
            let cycles: u32 = if self.wait.prefetch && address == self.rom_next && address & 0x1_FFFF
                != 0 {
                let halfwords: u32 = (width + 1) / 2;
                let s: u32 = page.s16 as u32;
                let available: u32 = self.prefetch_cycles / s;
                let buffered: u32 = if available < PREFETCH_DEPTH {
                    available
                } else {
                    PREFETCH_DEPTH
                };
                let hit: u32 = if buffered < halfwords {
                    buffered
                } else {
                    halfwords
                };
                let missed: u32 = halfwords - hit;
                proof {
                    assert(0 <= missed * s <= 36) by (nonlinear_arith)
                        requires
                            0 <= missed <= 2,
                            1 <= s <= 18,
                    ;
                }
                hit + missed * s
            } else {
                let sequential = address == self.next_sequential && address & 0x1_FFFF != 0;
                page.cycles(width, sequential)
            };
            self.rom_next = address.wrapping_add(width);
            self.prefetch_cycles = 0;
            cycles
        } else {
            let cycles: u32 = page.cycles(width, address == self.next_sequential);
            self.idle(cycles);
            cycles
        };
        self.access_cycles = self.access_cycles.saturating_add(cycles);
        self.next_sequential = address.wrapping_add(width);
    }

    /// Re-decodes the timing table after an I/O write that may have
    /// touched `WAITCNT`.
    fn after_io_write(&mut self, offset: u32, width: u32)
        requires
            old(self).wf(),
            offset <= 0x00FF_FFFF,
            width <= 4,
        ensures
            final(self).wf(),
            final(self)@ == old(self)@.retimed(offset, width),
    {
        if offset < reg::WAITCNT + 2 && offset + width > reg::WAITCNT {
            self.wait = WaitStates::from_waitcnt(self.io.read16(reg::WAITCNT));
        }
    }

    /// Writes a word into the BIOS region. Used to install the HLE
    /// exception stubs; software cannot write here.
    pub fn poke_bios(&mut self, address: u32, value: u32)
        requires
            old(self).wf(),
        ensures
            final(self).wf(),
            final(self)@ == old(self)@.bios_poked(address, value),
    {
        if address <= BIOS_SIZE as u32 - 4 {
            set32(&mut self.bios, address as usize, value);
        }
    }

    /// Installs a BIOS image.
    ///
    /// # Errors
    ///
    /// Returns [`GbaError::BiosSize`] unless the image is exactly 16 KiB.
    pub fn load_bios(&mut self, bios: &[u8]) -> (loaded: Result<()>)
        requires
            old(self).wf(),
        ensures
            final(self).wf(),
            match loaded {
                Ok(()) => bios@.len() == BIOS_SIZE && final(self)@ == (BusView {
                    bios: bios@,
                    ..old(self)@
                }),
                Err(err) => bios@.len() != BIOS_SIZE && final(self)@ == old(self)@ && err == (
                GbaError::BiosSize { size: bios.len(), expected: BIOS_SIZE }),
            },
    {
        if bios.len() != BIOS_SIZE {
            return Err(GbaError::BiosSize { size: bios.len(), expected: BIOS_SIZE });
        }
        self.bios = vstd::slice::slice_to_vec(bios);
        Ok(())
    }

    /// Whether a ROM-area address reaches the EEPROM chip instead of the
    /// ROM: the whole `0x0D` page for carts up to 16 MiB, only its top
    /// 256 bytes for larger ones.
    #[must_use]
    pub fn is_eeprom_address(&self, address: u32) -> (is_eeprom: bool)
        ensures
            is_eeprom == self@.eeprom_at(address),
    {
        address >> 24 == 0x0D && self.backup.eeprom().is_some() && (self.cartridge.rom().len()
            <= 0x100_0000 || address & 0x00FF_FFFF >= 0x00FF_FF00)
    }

    /// Lets the EEPROM learn its size from a DMA transfer length.
    pub fn hint_eeprom_transfer(&mut self, address: u32, units: u32)
        requires
            old(self).wf(),
        ensures
            final(self).wf(),
            final(self)@ == old(self)@.eeprom_hinted(address, units),
    {
        if self.is_eeprom_address(address) {
            if let Some(eeprom) = self.backup.eeprom_mut() {
                eeprom.hint_transfer_len(units);
            }
        }
    }

    fn eeprom_read(&mut self) -> (bit: u16)
        requires
            old(self).wf(),
            old(self)@.backup is Eeprom,
        ensures
            final(self).wf(),
            bit == old(self)@.eeprom().reply(),
            final(self)@ == old(self)@.with_eeprom(old(self)@.eeprom().read()),
    {
        match self.backup.eeprom_mut() {
            Some(eeprom) => eeprom.read(),
            None => 1,
        }
    }

    fn eeprom_write(&mut self, value: u16)
        requires
            old(self).wf(),
            old(self)@.backup is Eeprom,
        ensures
            final(self).wf(),
            final(self)@ == old(self)@.with_eeprom(old(self)@.eeprom().write(value)),
    {
        if let Some(eeprom) = self.backup.eeprom_mut() {
            eeprom.write(value);
        }
    }

    /// The halfword at ROM offset `off`, through the GPIO port.
    fn rom_half(&self, off: u32) -> (value: u16)
        ensures
            value == self@.rom_half(off),
    {
        match self.gpio.read16(off) {
            Some(value) => value,
            None => self.cartridge.read16(off),
        }
    }

    /// The byte at ROM offset `off`, through the GPIO port.
    fn rom_byte(&self, off: u32) -> (value: u8)
        ensures
            value == self@.rom_byte(off),
    {
        match self.gpio.read16(off & !1u32) {
            Some(value) => (value >> (((off & 1) * 8) as u16)) as u8,
            None => self.cartridge.read8(off),
        }
    }

    /// The word at ROM offset `off`, through the GPIO port.
    fn rom_word(&self, off: u32) -> (value: u32)
        ensures
            value == self@.rom_word(off),
    {
        if self.gpio.readable && Gpio::covers(off) {
            (self.rom_half(off) as u32) | ((self.rom_half(off + 2) as u32) << 16)
        } else {
            self.cartridge.read32(off)
        }
    }
}

impl Memory for Bus {
    type State = BusView;

    open spec fn wf(&self) -> bool {
        &&& self.bios@.len() == BIOS_SIZE
        &&& self.ewram@.len() == EWRAM_SIZE
        &&& self.iwram@.len() == IWRAM_SIZE
        &&& self.backup.wf()
        &&& self.io.wf()
        &&& self.video.wf()
        &&& self.cartridge.wf()
        &&& self.gpio.wf()
        &&& self.wait.wf()
    }

    open spec fn state(&self) -> BusView {
        self@
    }

    open spec fn value8(s: BusView, address: u32) -> u8 {
        s.value8(address)
    }

    open spec fn value16(s: BusView, address: u32) -> u16 {
        s.value16(address)
    }

    open spec fn value32(s: BusView, address: u32) -> u32 {
        s.value32(address)
    }

    open spec fn loaded8(s: BusView, address: u32) -> BusView {
        s.loaded(address, 1)
    }

    open spec fn loaded16(s: BusView, address: u32) -> BusView {
        s.loaded(address & !1u32, 2)
    }

    open spec fn loaded32(s: BusView, address: u32) -> BusView {
        s.loaded(address & !3u32, 4)
    }

    open spec fn stored8(s: BusView, address: u32, value: u8) -> BusView {
        s.accounted(address, 1).put8(address, value)
    }

    open spec fn stored16(s: BusView, address: u32, value: u16) -> BusView {
        s.accounted(address & !1u32, 2).put16(address & !1u32, address, value)
    }

    open spec fn stored32(s: BusView, address: u32, value: u32) -> BusView {
        s.accounted(address & !3u32, 4).put32(address & !3u32, address, value)
    }

    open spec fn elapsed(s: BusView) -> u32 {
        s.access_cycles
    }

    open spec fn settled(s: BusView) -> BusView {
        BusView { access_cycles: 0, ..s }
    }

    open spec fn idled(s: BusView, cycles: u32) -> BusView {
        s.idled(cycles)
    }

    /// Reads a byte.
    fn read8(&mut self, address: u32) -> (value: u8) {
        proof {
            reveal(BusView::value8);
            reveal(BusView::loaded);
            reveal(BusView::accounted);
        }
        self.account(address, 1);
        let off: u32 = page_offset(address);
        match MemoryRegion::from_address(address) {
            Some(MemoryRegion::Bios) => {
                if (off as usize) < BIOS_SIZE {
                    self.bios[off as usize]
                } else {
                    0
                }
            },
            Some(MemoryRegion::Ewram) => self.ewram[(off & 0x3_FFFF) as usize],
            Some(MemoryRegion::Iwram) => self.iwram[(off & 0x7FFF) as usize],
            Some(MemoryRegion::Io) => self.io.read8(off),
            Some(MemoryRegion::Palette) => self.video.palette[VideoMemory::palette_index(off)],
            Some(MemoryRegion::Vram) => self.video.vram[VideoMemory::vram_index(off)],
            Some(MemoryRegion::Oam) => self.video.oam[VideoMemory::oam_index(off)],
            Some(MemoryRegion::Rom) => {
                if self.is_eeprom_address(address) {
                    self.eeprom_read() as u8
                } else {
                    self.rom_byte(address & 0x01FF_FFFF)
                }
            },
            Some(MemoryRegion::Sram) => self.backup.read(off),
            None => 0,
        }
    }

    /// Reads a halfword from an even address.
    fn read16(&mut self, exact: u32) -> (value: u16) {
        proof {
            reveal(BusView::value16_at);
            reveal(BusView::loaded);
            reveal(BusView::accounted);
            lemma_aligned_offsets(exact);
        }
        let address: u32 = exact & !1u32;
        self.account(address, 2);
        let off: u32 = page_offset(address);
        match MemoryRegion::from_address(address) {
            Some(MemoryRegion::Bios) => {
                if off as usize + 2 <= BIOS_SIZE {
                    get16(self.bios.as_slice(), off as usize)
                } else {
                    0
                }
            },
            Some(MemoryRegion::Ewram) => get16(self.ewram.as_slice(), (off & 0x3_FFFF) as usize),
            Some(MemoryRegion::Iwram) => get16(self.iwram.as_slice(), (off & 0x7FFF) as usize),
            Some(MemoryRegion::Io) => self.io.read16(off),
            Some(MemoryRegion::Palette) => get16(
                self.video.palette.as_slice(),
                VideoMemory::palette_index(off),
            ),
            Some(MemoryRegion::Vram) => get16(
                self.video.vram.as_slice(),
                VideoMemory::vram_index(off),
            ),
            Some(MemoryRegion::Oam) => get16(
                self.video.oam.as_slice(),
                VideoMemory::oam_index(off),
            ),
            Some(MemoryRegion::Rom) => {
                if self.is_eeprom_address(address) {
                    self.eeprom_read()
                } else {
                    self.rom_half(address & 0x01FF_FFFF)
                }
            },
            // SRAM is on an 8-bit bus: the addressed byte is repeated
            // across the halfword.
            Some(MemoryRegion::Sram) => self.backup.read(page_offset(exact)) as u16 * 0x0101,
            None => 0,
        }
    }

    /// Reads a word from a word-aligned address.
    fn read32(&mut self, exact: u32) -> (value: u32) {
        proof {
            reveal(BusView::value32_at);
            reveal(BusView::loaded);
            reveal(BusView::accounted);
            lemma_aligned_offsets(exact);
        }
        let address: u32 = exact & !3u32;
        self.account(address, 4);
        let off: u32 = page_offset(address);
        match MemoryRegion::from_address(address) {
            Some(MemoryRegion::Bios) => {
                if off as usize + 4 <= BIOS_SIZE {
                    get32(self.bios.as_slice(), off as usize)
                } else {
                    0
                }
            },
            Some(MemoryRegion::Ewram) => get32(self.ewram.as_slice(), (off & 0x3_FFFF) as usize),
            Some(MemoryRegion::Iwram) => get32(self.iwram.as_slice(), (off & 0x7FFF) as usize),
            Some(MemoryRegion::Io) => self.io.read32(off),
            Some(MemoryRegion::Palette) => get32(
                self.video.palette.as_slice(),
                VideoMemory::palette_index(off),
            ),
            Some(MemoryRegion::Vram) => get32(
                self.video.vram.as_slice(),
                VideoMemory::vram_index(off),
            ),
            Some(MemoryRegion::Oam) => get32(
                self.video.oam.as_slice(),
                VideoMemory::oam_index(off),
            ),
            Some(MemoryRegion::Rom) => {
                if self.is_eeprom_address(address) {
                    let lo: u32 = self.eeprom_read() as u32;
                    let hi: u32 = self.eeprom_read() as u32;
                    lo | (hi << 16)
                } else {
                    self.rom_word(address & 0x01FF_FFFF)
                }
            },
            Some(MemoryRegion::Sram) => self.backup.read(page_offset(exact)) as u32 * 0x0101_0101,
            None => 0,
        }
    }

    /// Writes a byte.
    ///
    /// Video memory is on a 16-bit bus: byte writes to palette RAM and VRAM
    /// (background area only) are duplicated into both bytes of the
    /// halfword, byte writes to OAM and the VRAM object area are ignored.
    fn write8(&mut self, address: u32, value: u8) {
        proof {
            reveal(BusView::put8);
            reveal(BusView::accounted);
        }
        self.account(address, 1);
        let off: u32 = page_offset(address);
        match MemoryRegion::from_address(address) {
            Some(MemoryRegion::Ewram) => {
                let index: usize = (off & 0x3_FFFF) as usize;
                self.ewram[index] = value;
            },
            Some(MemoryRegion::Iwram) => {
                let index: usize = (off & 0x7FFF) as usize;
                self.iwram[index] = value;
            },
            Some(MemoryRegion::Io) => {
                self.io.write8(off, value);
                self.after_io_write(off, 1);
            },
            Some(MemoryRegion::Palette) => {
                let exact: usize = VideoMemory::palette_index(off);
                set16(&mut self.video.palette, exact - exact % 2, value as u16 * 0x0101);
            },
            Some(MemoryRegion::Vram) => {
                let exact: usize = VideoMemory::vram_index(off);
                let index: usize = exact - exact % 2;
                // Object tiles live above 0x10000.
                if index < 0x1_0000 {
                    set16(&mut self.video.vram, index, value as u16 * 0x0101);
                }
            },
            Some(MemoryRegion::Sram) => self.backup.write(off, value),
            Some(MemoryRegion::Rom) => {
                if self.is_eeprom_address(address) {
                    self.eeprom_write(value as u16);
                }
            },
            _ => {},
        }
    }

    /// Writes a halfword to an even address.
    fn write16(&mut self, exact: u32, value: u16) {
        proof {
            reveal(BusView::put16);
            reveal(BusView::accounted);
            lemma_aligned_offsets(exact);
        }
        let address: u32 = exact & !1u32;
        self.account(address, 2);
        let off: u32 = page_offset(address);
        match MemoryRegion::from_address(address) {
            Some(MemoryRegion::Ewram) => set16(
                &mut self.ewram,
                (off & 0x3_FFFF) as usize,
                value,
            ),
            Some(MemoryRegion::Iwram) => set16(&mut self.iwram, (off & 0x7FFF) as usize, value),
            Some(MemoryRegion::Io) => {
                self.io.write16(off, value);
                self.after_io_write(off, 2);
            },
            Some(MemoryRegion::Palette) => set16(
                &mut self.video.palette,
                VideoMemory::palette_index(off),
                value,
            ),
            Some(MemoryRegion::Vram) => set16(
                &mut self.video.vram,
                VideoMemory::vram_index(off),
                value,
            ),
            Some(MemoryRegion::Oam) => set16(
                &mut self.video.oam,
                VideoMemory::oam_index(off),
                value,
            ),
            // 8-bit bus: one byte reaches the chip, the one the store
            // would have put at the exact address.
            Some(MemoryRegion::Sram) => {
                let byte: u8 = (value >> (((exact & 1) * 8) as u16)) as u8;
                self.backup.write(page_offset(exact), byte);
            },
            Some(MemoryRegion::Rom) => {
                if self.is_eeprom_address(address) {
                    self.eeprom_write(value);
                } else {
                    self.gpio.write16(address & 0x01FF_FFFF, value);
                }
            },
            _ => {},
        }
    }

    /// Writes a word to a word-aligned address.
    fn write32(&mut self, exact: u32, value: u32) {
        proof {
            reveal(BusView::put32);
            reveal(BusView::accounted);
            lemma_aligned_offsets(exact);
        }
        let address: u32 = exact & !3u32;
        self.account(address, 4);
        let off: u32 = page_offset(address);
        match MemoryRegion::from_address(address) {
            Some(MemoryRegion::Ewram) => set32(
                &mut self.ewram,
                (off & 0x3_FFFF) as usize,
                value,
            ),
            Some(MemoryRegion::Iwram) => set32(&mut self.iwram, (off & 0x7FFF) as usize, value),
            Some(MemoryRegion::Io) => {
                self.io.write32(off, value);
                self.after_io_write(off, 4);
            },
            Some(MemoryRegion::Palette) => set32(
                &mut self.video.palette,
                VideoMemory::palette_index(off),
                value,
            ),
            Some(MemoryRegion::Vram) => set32(
                &mut self.video.vram,
                VideoMemory::vram_index(off),
                value,
            ),
            Some(MemoryRegion::Oam) => set32(
                &mut self.video.oam,
                VideoMemory::oam_index(off),
                value,
            ),
            Some(MemoryRegion::Sram) => {
                let byte: u8 = (value >> ((exact & 3) * 8)) as u8;
                self.backup.write(page_offset(exact), byte);
            },
            Some(MemoryRegion::Rom) => {
                if self.is_eeprom_address(address) {
                    self.eeprom_write(value as u16);
                    self.eeprom_write((value >> 16) as u16);
                } else {
                    let off: u32 = address & 0x01FF_FFFF;
                    self.gpio.write16(off, value as u16);
                    self.gpio.write16(off + 2, (value >> 16) as u16);
                }
            },
            _ => {},
        }
    }

    fn take_access_cycles(&mut self) -> (cycles: u32) {
        let cycles: u32 = self.access_cycles;
        self.access_cycles = 0;
        cycles
    }

    fn idle(&mut self, cycles: u32) {
        // The buffer is at most PREFETCH_DEPTH halfwords deep; the cap
        // uses the slowest possible S timing so no setting overflows it.
        let total: u32 = self.prefetch_cycles.saturating_add(cycles);
        self.prefetch_cycles =
        if total < PREFETCH_CAP {
            total
        } else {
            PREFETCH_CAP
        };
    }
}

} // verus!
