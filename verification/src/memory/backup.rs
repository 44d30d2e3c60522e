//! Cartridge backup memory: SRAM, flash and EEPROM, selected by the
//! save-type signature Nintendo's SDK embeds in every ROM.

use vstd::prelude::*;

use crate::memory::eeprom::{overlaid, overlay, Eeprom, EepromView};

verus! {

broadcast use crate::bits::group_mask_bounds;

/// The kind of backup chip a cartridge carries.
#[derive(Debug, Clone, Copy, PartialEq, Eq, Structural)]
pub enum SaveType {
    /// No signature found; behaves as 32 KiB SRAM so stray writes stick.
    Unknown,
    /// 32 KiB battery-backed SRAM.
    Sram,
    /// 64 KiB flash.
    Flash64K,
    /// 128 KiB flash in two banks.
    Flash128K,
    /// Serial EEPROM, mapped in the ROM area rather than at `0x0E00_0000`.
    Eeprom,
}

/// Whether `needle` stands at position `at` of `rom`.
pub open spec fn stands_at(rom: Seq<u8>, needle: Seq<u8>, at: int) -> bool {
    0 <= at && at + needle.len() <= rom.len() && rom.subrange(at, at + needle.len()) == needle
}

/// Whether `needle` occurs anywhere in `rom`.
pub open spec fn occurs(rom: Seq<u8>, needle: Seq<u8>) -> bool {
    exists|at: int| stands_at(rom, needle, at)
}

/// The signature `FLASH1M_V`.
pub open spec fn flash1m_signature() -> Seq<u8> {
    seq![0x46u8, 0x4C, 0x41, 0x53, 0x48, 0x31, 0x4D, 0x5F, 0x56]
}

/// The signature `FLASH512_V`.
pub open spec fn flash512_signature() -> Seq<u8> {
    seq![0x46u8, 0x4C, 0x41, 0x53, 0x48, 0x35, 0x31, 0x32, 0x5F, 0x56]
}

/// The signature `FLASH_V`.
pub open spec fn flash_signature() -> Seq<u8> {
    seq![0x46u8, 0x4C, 0x41, 0x53, 0x48, 0x5F, 0x56]
}

/// The signature `SRAM_V`.
pub open spec fn sram_signature() -> Seq<u8> {
    seq![0x53u8, 0x52, 0x41, 0x4D, 0x5F, 0x56]
}

/// The signature `SRAM_F_V`.
pub open spec fn sram_f_signature() -> Seq<u8> {
    seq![0x53u8, 0x52, 0x41, 0x4D, 0x5F, 0x46, 0x5F, 0x56]
}

/// The signature `EEPROM_V`.
pub open spec fn eeprom_signature() -> Seq<u8> {
    seq![0x45u8, 0x45, 0x50, 0x52, 0x4F, 0x4D, 0x5F, 0x56]
}

/// The save type that the signatures in `rom` announce.
pub open spec fn detected_type(rom: Seq<u8>) -> SaveType {
    if occurs(rom, flash1m_signature()) {
        SaveType::Flash128K
    } else if occurs(rom, flash512_signature()) || occurs(rom, flash_signature()) {
        SaveType::Flash64K
    } else if occurs(rom, sram_signature()) || occurs(rom, sram_f_signature()) {
        SaveType::Sram
    } else if occurs(rom, eeprom_signature()) {
        SaveType::Eeprom
    } else {
        SaveType::Unknown
    }
}

/// Whether `needle` stands at position `at` of `rom`.
fn matches_at(rom: &[u8], needle: &[u8], at: usize) -> (found: bool)
    requires
        at + needle@.len() <= rom@.len(),
    ensures
        found == stands_at(rom@, needle@, at as int),
{
    let mut i: usize = 0;
    while i < needle.len()
        invariant
            i <= needle@.len(),
            at + needle@.len() <= rom.len(),
            forall|k: int| 0 <= k < i ==> rom@[at + k] == needle@[k],
        decreases needle@.len() - i,
    {
        if rom[at + i] != needle[i] {
            proof {
                assert(rom@.subrange(at as int, at + needle@.len())[i as int] != needle@[i as int]);
            }
            return false;
        }
        i = i + 1;
    }
    assert(rom@.subrange(at as int, at + needle@.len()) =~= needle@);
    true
}

/// Whether `needle` occurs anywhere in `rom`.
fn contains(rom: &[u8], needle: &[u8]) -> (found: bool)
    requires
        needle@.len() > 0,
    ensures
        found == occurs(rom@, needle@),
{
    if rom.len() < needle.len() {
        return false;
    }
    let last: usize = rom.len() - needle.len();
    let mut at: usize = 0;
    while at <= last
        invariant
            at <= last + 1,
            needle@.len() > 0,
            last + needle@.len() == rom.len(),
            forall|k: int| 0 <= k < at ==> !stands_at(rom@, needle@, k),
        decreases last + 1 - at,
    {
        if matches_at(rom, needle, at) {
            return true;
        }
        at = at + 1;
    }
    false
}

impl SaveType {
    /// Scans the ROM for the SDK's `xxx_Vnnn` save-type strings.
    #[must_use]
    pub fn detect(rom: &[u8]) -> (save_type: Self)
        ensures
            save_type == detected_type(rom@),
    {
        let flash1m: [u8; 9] = [0x46, 0x4C, 0x41, 0x53, 0x48, 0x31, 0x4D, 0x5F, 0x56];
        let flash512: [u8; 10] = [0x46, 0x4C, 0x41, 0x53, 0x48, 0x35, 0x31, 0x32, 0x5F, 0x56];
        let flash: [u8; 7] = [0x46, 0x4C, 0x41, 0x53, 0x48, 0x5F, 0x56];
        let sram: [u8; 6] = [0x53, 0x52, 0x41, 0x4D, 0x5F, 0x56];
        let sram_f: [u8; 8] = [0x53, 0x52, 0x41, 0x4D, 0x5F, 0x46, 0x5F, 0x56];
        let eeprom: [u8; 8] = [0x45, 0x45, 0x50, 0x52, 0x4F, 0x4D, 0x5F, 0x56];
        proof {
            assert(flash1m@ =~= flash1m_signature());
            assert(flash512@ =~= flash512_signature());
            assert(flash@ =~= flash_signature());
            assert(sram@ =~= sram_signature());
            assert(sram_f@ =~= sram_f_signature());
            assert(eeprom@ =~= eeprom_signature());
        }
        if contains(rom, &flash1m) {
            Self::Flash128K
        } else if contains(rom, &flash512) || contains(rom, &flash) {
            Self::Flash64K
        } else if contains(rom, &sram) || contains(rom, &sram_f) {
            Self::Sram
        } else if contains(rom, &eeprom) {
            Self::Eeprom
        } else {
            Self::Unknown
        }
    }
}

/// Flash command-sequence state.
#[derive(Debug, Clone, Copy, PartialEq, Eq, Structural)]
pub enum FlashState {
    /// Waiting for `0xAA` at `0x5555`.
    Idle,
    /// Got `0xAA`, waiting for `0x55` at `0x2AAA`.
    Unlock1,
    /// Got the unlock pair, waiting for the command byte at `0x5555`.
    Command,
    /// `0x80` seen: the next unlocked command is an erase.
    EraseUnlock1,
    /// Got `0xAA` of the second unlock pair.
    EraseUnlock2,
    /// Got the second unlock pair, waiting for the erase command.
    EraseCommand,
    /// `0xA0` seen: the next write programs one byte.
    Program,
    /// `0xB0` seen: the next write to `0x0000` selects the bank.
    BankSelect,
}

/// A flash chip with the common Sanyo/Macronix command set.
#[derive(Debug)]
pub struct Flash {
    /// Contents.
    pub data: Vec<u8>,
    /// Selected 64 KiB bank.
    pub bank: usize,
    /// Command sequence.
    pub state: FlashState,
    /// Whether reads return the chip ID.
    pub id_mode: bool,
    /// Chip ID: manufacturer.
    pub manufacturer: u8,
    /// Chip ID: device.
    pub device: u8,
}

/// The mathematical flash chip.
#[verifier::ext_equal]
pub struct FlashView {
    /// Contents.
    pub data: Seq<u8>,
    /// Selected 64 KiB bank.
    pub bank: int,
    /// Command sequence.
    pub state: FlashState,
    /// Whether reads return the chip ID.
    pub id_mode: bool,
    /// Chip ID: manufacturer.
    pub manufacturer: u8,
    /// Chip ID: device.
    pub device: u8,
}

impl View for Flash {
    type V = FlashView;

    open spec fn view(&self) -> FlashView {
        FlashView {
            data: self.data@,
            bank: self.bank as int,
            state: self.state,
            id_mode: self.id_mode,
            manufacturer: self.manufacturer,
            device: self.device,
        }
    }
}

/// `memory` with `start..end` erased.
pub open spec fn erased_range(memory: Seq<u8>, start: int, end: int) -> Seq<u8> {
    Seq::new(
        memory.len(),
        |i: int|
            if start <= i < end {
                0xFFu8
            } else {
                memory[i]
            },
    )
}

/// Erases `start..end` of `memory`.
fn erase_range(memory: &mut Vec<u8>, start: usize, end: usize)
    requires
        start <= end <= old(memory)@.len(),
    ensures
        final(memory)@ == erased_range(old(memory)@, start as int, end as int),
{
    let ghost before = memory@;
    for i in start..end
        invariant
            start <= end <= before.len(),
            memory@.len() == before.len(),
            forall|k: int| start <= k < i ==> memory@[k] == 0xFF,
            forall|k: int| 0 <= k < before.len() && !(start <= k < i) ==> memory@[k] == before[k],
    {
        memory[i] = 0xFF;
    }
    assert(memory@ =~= erased_range(before, start as int, end as int));
}

impl FlashView {
    /// The chip is a whole number of sectors and a bank is selected.
    pub open spec fn wf(self) -> bool {
        &&& self.data.len() > 0
        &&& self.data.len() % 0x1000 == 0
        &&& self.data.len() <= isize::MAX
        &&& 0 <= self.bank <= 1
    }

    /// An erased chip of `size` bytes. Chips above 64 KiB answer as the
    /// Sanyo LE26FV10N1TS, others as the Macronix MX29L512.
    pub open spec fn erased(size: nat) -> FlashView {
        FlashView {
            data: Seq::new(size, |i: int| 0xFFu8),
            bank: 0,
            state: FlashState::Idle,
            id_mode: false,
            manufacturer: if size > 0x1_0000 {
                0x62
            } else {
                0xC2
            },
            device: if size > 0x1_0000 {
                0x13
            } else {
                0x1C
            },
        }
    }

    /// Where `address` lies in the selected bank.
    pub open spec fn index(self, address: u32) -> int {
        (self.bank * 0x1_0000 + (address & 0xFFFF)) % (self.data.len() as int)
    }

    /// The byte that a read returns.
    pub open spec fn value(self, address: u32) -> u8 {
        if self.id_mode && address & 0xFFFF == 0 {
            self.manufacturer
        } else if self.id_mode && address & 0xFFFF == 1 {
            self.device
        } else {
            self.data[self.index(address)]
        }
    }

    /// The chip in another command state.
    pub open spec fn in_state(self, state: FlashState) -> FlashView {
        FlashView { state, ..self }
    }

    /// The chip after an unlocked command byte.
    pub open spec fn commanded(self, command: u8) -> FlashView {
        if command == 0x90 {
            FlashView { id_mode: true, ..self.in_state(FlashState::Idle) }
        } else if command == 0xF0 {
            FlashView { id_mode: false, ..self.in_state(FlashState::Idle) }
        } else if command == 0x80 {
            self.in_state(FlashState::EraseUnlock1)
        } else if command == 0xA0 {
            self.in_state(FlashState::Program)
        } else if command == 0xB0 {
            self.in_state(FlashState::BankSelect)
        } else {
            self.in_state(FlashState::Idle)
        }
    }

    /// The chip after the byte that completes an erase sequence.
    pub open spec fn erase_commanded(self, address: u32, value: u8) -> FlashView {
        let idle = self.in_state(FlashState::Idle);
        let start = self.index(address);
        if address == 0x5555 && value == 0x10 {
            FlashView { data: erased_range(self.data, 0, self.data.len() as int), ..idle }
        } else if value == 0x30 && address & 0xFFF == 0 {
            FlashView { data: erased_range(self.data, start, start + 0x1000), ..idle }
        } else {
            idle
        }
    }

    /// The chip after a byte write at `address` (16 bits). Any unexpected
    /// write resets the sequence.
    pub open spec fn written_at(self, address: u32, value: u8) -> FlashView {
        let idle = self.in_state(FlashState::Idle);
        let unlock_first = address == 0x5555 && value == 0xAA;
        let unlock_second = address == 0x2AAA && value == 0x55;
        match self.state {
            FlashState::Idle => if unlock_first {
                self.in_state(FlashState::Unlock1)
            } else {
                idle
            },
            FlashState::Unlock1 => if unlock_second {
                self.in_state(FlashState::Command)
            } else {
                idle
            },
            FlashState::Command => if address == 0x5555 {
                self.commanded(value)
            } else {
                idle
            },
            FlashState::EraseUnlock1 => if unlock_first {
                self.in_state(FlashState::EraseUnlock2)
            } else {
                idle
            },
            FlashState::EraseUnlock2 => if unlock_second {
                self.in_state(FlashState::EraseCommand)
            } else {
                idle
            },
            FlashState::EraseCommand => self.erase_commanded(address, value),
            // Programming can only clear bits, like real flash.
            FlashState::Program => FlashView {
                data: self.data.update(
                    self.index(address),
                    self.data[self.index(address)] & value,
                ),
                ..idle
            },
            FlashState::BankSelect => if address == 0 {
                let banks = self.data.len() as int / 0x1_0000;
                FlashView {
                    bank: if banks >= 2 {
                        (value & 1) as int
                    } else {
                        0
                    },
                    ..idle
                }
            } else {
                idle
            },
        }
    }

    /// The chip after a byte write.
    pub open spec fn write(self, address: u32, value: u8) -> FlashView {
        self.written_at(address & 0xFFFF, value)
    }

    /// The chip after a save file's contents are restored.
    pub open spec fn load(self, contents: Seq<u8>) -> FlashView {
        FlashView { data: overlaid(self.data, contents, self.data.len() as int), ..self }
    }
}

impl Clone for Flash {
    fn clone(&self) -> (copy: Self)
        ensures
            copy@ == self@,
    {
        let data = self.data.clone();
        assert(data@ =~= self.data@);
        Self {
            data,
            bank: self.bank,
            state: self.state,
            id_mode: self.id_mode,
            manufacturer: self.manufacturer,
            device: self.device,
        }
    }
}

impl Flash {
    /// The chip is a whole number of sectors and a bank is selected.
    pub open spec fn wf(&self) -> bool {
        self@.wf()
    }

    /// An erased chip of `size` bytes (64 or 128 KiB).
    #[must_use]
    pub fn new(size: usize) -> (flash: Self)
        requires
            0 < size <= isize::MAX,
            size % 0x1000 == 0,
        ensures
            flash.wf(),
            flash@ == FlashView::erased(size as nat),
    {
        let (manufacturer, device): (u8, u8) = if size > 0x1_0000 {
            // Sanyo LE26FV10N1TS, 128 KiB: the chip 1 Mbit carts expect.
            (0x62, 0x13)
        } else {
            // Macronix MX29L512, 64 KiB.
            (0xC2, 0x1C)
        };
        let flash = Self {
            data: vec![0xFFu8; size],
            bank: 0,
            state: FlashState::Idle,
            id_mode: false,
            manufacturer,
            device,
        };
        assert(flash@.data =~= FlashView::erased(size as nat).data);
        flash
    }

    fn index(&self, address: u32) -> (index: usize)
        requires
            self.wf(),
        ensures
            index == self@.index(address),
            index < self@.data.len(),
    {
        (self.bank * 0x1_0000 + (address & 0xFFFF) as usize) % self.data.len()
    }

    /// Reads a byte; in ID mode the first two addresses return the chip ID.
    #[must_use]
    pub fn read(&self, address: u32) -> (value: u8)
        requires
            self.wf(),
        ensures
            value == self@.value(address),
    {
        let low: u32 = address & 0xFFFF;
        match (self.id_mode, low) {
            (true, 0) => self.manufacturer,
            (true, 1) => self.device,
            _ => self.data[self.index(address)],
        }
    }

    /// Handles the byte that completes an erase sequence.
    fn erase_command(&mut self, address: u32, value: u8)
        requires
            old(self).wf(),
            address <= 0xFFFF,
        ensures
            final(self).wf(),
            final(self)@ == old(self)@.erase_commanded(address, value),
    {
        if address == 0x5555 && value == 0x10 {
            let end: usize = self.data.len();
            erase_range(&mut self.data, 0, end);
        } else if value == 0x30 && address & 0xFFF == 0 {
            let start: usize = self.index(address);
            proof {
                lemma_sector_fits(self@, address);
            }
            erase_range(&mut self.data, start, start + 0x1000);
        }
        self.state = FlashState::Idle;
    }

    /// Feeds a byte write into the command state machine.
    pub fn write(&mut self, address: u32, value: u8)
        requires
            old(self).wf(),
        ensures
            final(self).wf(),
            final(self)@ == old(self)@.write(address, value),
    {
        let address: u32 = address & 0xFFFF;
        match (self.state, address, value) {
            (FlashState::Idle, 0x5555, 0xAA) => self.state = FlashState::Unlock1,
            (FlashState::Unlock1, 0x2AAA, 0x55) => self.state = FlashState::Command,
            (FlashState::Command, 0x5555, cmd) => match cmd {
                0x90 => {
                    self.id_mode = true;
                    self.state = FlashState::Idle;
                },
                0xF0 => {
                    self.id_mode = false;
                    self.state = FlashState::Idle;
                },
                0x80 => self.state = FlashState::EraseUnlock1,
                0xA0 => self.state = FlashState::Program,
                0xB0 => self.state = FlashState::BankSelect,
                _ => self.state = FlashState::Idle,
            },
            (FlashState::EraseUnlock1, 0x5555, 0xAA) => self.state = FlashState::EraseUnlock2,
            (FlashState::EraseUnlock2, 0x2AAA, 0x55) => self.state = FlashState::EraseCommand,
            (FlashState::EraseCommand, _, _) => self.erase_command(address, value),
            (FlashState::Program, _, byte) => {
                // Programming can only clear bits, like real flash.
                let i: usize = self.index(address);
                self.data[i] = self.data[i] & byte;
                self.state = FlashState::Idle;
            },
            (FlashState::BankSelect, 0x0000, bank) => {
                self.bank =
                if self.data.len() / 0x1_0000 >= 2 {
                    (bank & 1) as usize
                } else {
                    0
                };
                self.state = FlashState::Idle;
            },
            // Any unexpected write resets the sequence.
            _ => self.state = FlashState::Idle,
        }
    }

    /// Raw contents, for saving.
    #[must_use]
    pub fn data(&self) -> (contents: &[u8])
        ensures
            contents@ == self@.data,
    {
        self.data.as_slice()
    }

    /// Replaces the contents, e.g. from a save file. Extra bytes are
    /// ignored and missing ones stay erased.
    pub fn load(&mut self, data: &[u8])
        requires
            old(self).wf(),
        ensures
            final(self).wf(),
            final(self)@ == old(self)@.load(data@),
    {
        let size: usize = self.data.len();
        overlay(&mut self.data, data, size);
    }
}

pub(crate) proof fn lemma_low_bits(x: u32)
    ensures
        x & 0xFFF == x % 0x1000,
        x <= 0xFFFF ==> x & 0xFFFF == x,
        (x & 0xFFFF) & 0xFFFF == x & 0xFFFF,
{
    crate::bits::word_facts(x, 0, 0, 0);
}

/// A sector that starts inside the chip ends inside it.
proof fn lemma_sector_fits(flash: FlashView, address: u32)
    requires
        flash.wf(),
        address <= 0xFFFF,
        address & 0xFFF == 0,
    ensures
        flash.index(address) + 0x1000 <= flash.data.len(),
{
    lemma_low_bits(address);
    let len = flash.data.len() as int;
    let place = flash.bank * 0x1_0000 + address;
    assert(place % 0x1000 == 0);
    let sectors = len / 0x1000;
    let q = place / 0x1000;
    assert(len == 0x1000 * sectors);
    assert(place == 0x1000 * q);
    assert((0x1000 * q) % (0x1000 * sectors) == 0x1000 * (q % sectors)) by {
        vstd::arithmetic::mul::lemma_mul_is_commutative(q, 0x1000);
        vstd::arithmetic::mul::lemma_mul_is_commutative(sectors, 0x1000);
        vstd::arithmetic::div_mod::lemma_truncate_middle(q, 0x1000, sectors);
    }
    assert(0 <= q % sectors < sectors);
}

/// The cartridge's backup device.
///
/// SRAM and flash answer byte accesses at `0x0E00_0000`; EEPROM instead
/// answers halfword accesses at `0x0D00_0000` (see [`Bus`](crate::Bus)).
#[derive(Debug)]
pub enum Backup {
    /// Plain byte-addressed RAM.
    Sram(Vec<u8>),
    /// Command-driven flash.
    Flash(Flash),
    /// Bit-serial EEPROM.
    Eeprom(Eeprom),
}

/// The mathematical backup device.
#[verifier::ext_equal]
pub enum BackupView {
    /// Plain byte-addressed RAM.
    Sram(Seq<u8>),
    /// Command-driven flash.
    Flash(FlashView),
    /// Bit-serial EEPROM.
    Eeprom(EepromView),
}

impl View for Backup {
    type V = BackupView;

    open spec fn view(&self) -> BackupView {
        match *self {
            Backup::Sram(data) => BackupView::Sram(data@),
            Backup::Flash(flash) => BackupView::Flash(flash@),
            Backup::Eeprom(eeprom) => BackupView::Eeprom(eeprom@),
        }
    }
}

impl BackupView {
    /// The device's own invariant.
    pub open spec fn wf(self) -> bool {
        match self {
            BackupView::Sram(data) => data.len() > 0,
            BackupView::Flash(flash) => flash.wf(),
            BackupView::Eeprom(eeprom) => eeprom.wf(),
        }
    }

    /// The fresh device for a save type.
    pub open spec fn fresh(save_type: SaveType) -> BackupView {
        match save_type {
            SaveType::Flash64K => BackupView::Flash(FlashView::erased(0x1_0000)),
            SaveType::Flash128K => BackupView::Flash(FlashView::erased(0x2_0000)),
            SaveType::Eeprom => BackupView::Eeprom(EepromView::erased()),
            _ => BackupView::Sram(Seq::new(0x8000, |i: int| 0xFFu8)),
        }
    }

    /// The byte at `offset` within the SRAM region. EEPROM carts have
    /// nothing there and read back as open bus.
    pub open spec fn value(self, offset: u32) -> u8 {
        match self {
            BackupView::Sram(data) => data[offset as int % (data.len() as int)],
            BackupView::Flash(flash) => flash.value(offset),
            BackupView::Eeprom(eeprom) => 0xFF,
        }
    }

    /// The device after a byte is written at `offset`.
    pub open spec fn write(self, offset: u32, value: u8) -> BackupView {
        match self {
            BackupView::Sram(data) => BackupView::Sram(
                data.update(offset as int % (data.len() as int), value),
            ),
            BackupView::Flash(flash) => BackupView::Flash(flash.write(offset, value)),
            BackupView::Eeprom(eeprom) => self,
        }
    }

    /// The contents that a save file holds.
    pub open spec fn contents(self) -> Seq<u8> {
        match self {
            BackupView::Sram(data) => data,
            BackupView::Flash(flash) => flash.data,
            BackupView::Eeprom(eeprom) => eeprom.data.take(eeprom.size()),
        }
    }

    /// The device after a save file's contents are restored.
    pub open spec fn load(self, contents: Seq<u8>) -> BackupView {
        match self {
            BackupView::Sram(data) => BackupView::Sram(
                overlaid(data, contents, data.len() as int),
            ),
            BackupView::Flash(flash) => BackupView::Flash(flash.load(contents)),
            BackupView::Eeprom(eeprom) => BackupView::Eeprom(eeprom.load(contents)),
        }
    }
}

impl Clone for Backup {
    fn clone(&self) -> (copy: Self)
        ensures
            copy@ == self@,
    {
        match self {
            Self::Sram(data) => {
                let copy = data.clone();
                assert(copy@ =~= data@);
                Self::Sram(copy)
            },
            Self::Flash(flash) => Self::Flash(flash.clone()),
            Self::Eeprom(eeprom) => Self::Eeprom(eeprom.clone()),
        }
    }
}

impl Backup {
    /// The device's own invariant.
    pub open spec fn wf(&self) -> bool {
        self@.wf()
    }

    /// The device for a save type.
    #[must_use]
    pub fn for_type(save_type: SaveType) -> (backup: Self)
        ensures
            backup.wf(),
            backup@ == BackupView::fresh(save_type),
    {
        match save_type {
            SaveType::Flash64K => Self::Flash(Flash::new(0x1_0000)),
            SaveType::Flash128K => Self::Flash(Flash::new(0x2_0000)),
            SaveType::Eeprom => Self::Eeprom(Eeprom::new()),
            _ => {
                let data = vec![0xFFu8; 0x8000];
                assert(data@ =~= Seq::new(0x8000, |i: int| 0xFFu8));
                Self::Sram(data)
            },
        }
    }

    /// Reads a byte at `offset` within the SRAM region. EEPROM carts have
    /// nothing there and read back as open bus.
    #[must_use]
    pub fn read(&self, offset: u32) -> (value: u8)
        requires
            self.wf(),
        ensures
            value == self@.value(offset),
    {
        match self {
            Self::Sram(data) => data[offset as usize % data.len()],
            Self::Flash(flash) => flash.read(offset),
            Self::Eeprom(_) => 0xFF,
        }
    }

    /// Writes a byte at `offset` within the SRAM region.
    pub fn write(&mut self, offset: u32, value: u8)
        requires
            old(self).wf(),
        ensures
            final(self).wf(),
            final(self)@ == old(self)@.write(offset, value),
    {
        match self {
            Self::Sram(data) => {
                let i: usize = offset as usize % data.len();
                data[i] = value;
            },
            Self::Flash(flash) => flash.write(offset, value),
            Self::Eeprom(_) => {},
        }
    }

    /// The EEPROM chip, if this cartridge has one.
    #[must_use]
    pub fn eeprom(&self) -> (chip: Option<&Eeprom>)
        ensures
            match chip {
                Some(eeprom) => self@ == BackupView::Eeprom(eeprom@),
                None => !(self@ is Eeprom),
            },
    {
        match self {
            Self::Eeprom(eeprom) => Some(eeprom),
            _ => None,
        }
    }

    /// Mutable access to the EEPROM chip, if this cartridge has one.
    pub fn eeprom_mut(&mut self) -> (chip: Option<&mut Eeprom>)
        ensures
            match chip {
                Some(eeprom) => old(self)@ == BackupView::Eeprom(eeprom@) && final(self)@
                    == BackupView::Eeprom(final(eeprom)@),
                None => !(old(self)@ is Eeprom) && final(self)@ == old(self)@,
            },
    {
        match self {
            Self::Eeprom(eeprom) => Some(eeprom),
            _ => None,
        }
    }

    /// Raw contents, for saving to disk.
    #[must_use]
    pub fn data(&self) -> (contents: &[u8])
        requires
            self.wf(),
        ensures
            contents@ == self@.contents(),
    {
        match self {
            Self::Sram(data) => data.as_slice(),
            Self::Flash(flash) => flash.data(),
            Self::Eeprom(eeprom) => eeprom.data(),
        }
    }

    /// Replaces the contents from a save file.
    pub fn load(&mut self, data: &[u8])
        requires
            old(self).wf(),
        ensures
            final(self).wf(),
            final(self)@ == old(self)@.load(data@),
    {
        match self {
            Self::Sram(sram) => {
                let size: usize = sram.len();
                overlay(sram, data, size);
            },
            Self::Flash(flash) => flash.load(data),
            Self::Eeprom(eeprom) => eeprom.load(data),
        }
    }
}

} // verus!
