//! Cartridge ROM loading and header parsing.

use std::sync::Arc;

use vstd::prelude::*;

use crate::bytes::{get16, get32, half_at, word_at};
use crate::error::{GbaError, Result};
use crate::memory::backup::{detected_type, SaveType};
use crate::memory::ROM_MAX_SIZE;

verus! {

broadcast use crate::bits::group_mask_bounds;

/// `String::push` appends one character.
pub assume_specification[ String::push ](s: &mut String, c: char)
    ensures
        final(s)@ == old(s)@.push(c),
;

/// `Arc::clone` hands out another handle to the same ROM.
#[verifier::external_body]
fn share(rom: &Arc<Vec<u8>>) -> (handle: Arc<Vec<u8>>)
    ensures
        handle == rom,
{
    Arc::clone(rom)
}

/// The FNV-1a hash of `rom`.
pub open spec fn fnv1a(rom: Seq<u8>) -> u64
    decreases rom.len(),
{
    if rom.len() == 0 {
        0xcbf2_9ce4_8422_2325
    } else {
        (fnv1a(rom.drop_last()) ^ (rom.last() as u64)).wrapping_mul(0x0000_0100_0000_01b3)
    }
}

/// FNV-1a over a ROM image: enough to tell two cartridges apart, and
/// cheap enough to take once while loading one.
fn fingerprint(rom: &[u8]) -> (hash: u64)
    ensures
        hash == fnv1a(rom@),
{
    let mut hash: u64 = 0xcbf2_9ce4_8422_2325;
    assert(rom@.take(0) =~= Seq::<u8>::empty());
    for i in 0..rom.len()
        invariant
            hash == fnv1a(rom@.take(i as int)),
    {
        hash = (hash ^ (rom[i] as u64)).wrapping_mul(0x0000_0100_0000_01b3);
        proof {
            assert(rom@.take(i + 1).drop_last() =~= rom@.take(i as int));
        }
    }
    assert(rom@.take(rom@.len() as int) =~= rom@);
    hash
}

/// Offset of the cartridge header within the ROM.
pub const HEADER_OFFSET: usize = 0xA0;
/// Minimum ROM size: the header must be present in full.
pub const HEADER_END: usize = 0xC0;

/// Parsed cartridge header (bytes `0xA0..0xC0` of the ROM).
#[derive(Debug, PartialEq, Eq)]
pub struct Header {
    /// Game title, up to 12 ASCII characters, trailing NULs stripped.
    pub title: String,
    /// Four-character game code, e.g. `"AXVE"`.
    pub game_code: String,
    /// Two-character maker code, e.g. `"01"` for Nintendo.
    pub maker_code: String,
    /// Software version number.
    pub version: u8,
    /// Header checksum as stored in the ROM.
    pub checksum: u8,
    /// Whether the fixed byte at `0xB2` has the required value `0x96` and
    /// the stored checksum matches the computed one.
    ///
    /// Real hardware refuses to boot ROMs that fail this check, but the
    /// emulator does not: many homebrew ROMs are never run through
    /// `gbafix` and are otherwise perfectly valid.
    pub valid: bool,
}

/// The mathematical header.
#[verifier::ext_equal]
pub struct HeaderView {
    /// Game title.
    pub title: Seq<char>,
    /// Game code.
    pub game_code: Seq<char>,
    /// Maker code.
    pub maker_code: Seq<char>,
    /// Software version number.
    pub version: u8,
    /// Stored checksum.
    pub checksum: u8,
    /// Whether the fixed byte and the checksum are right.
    pub valid: bool,
}

impl View for Header {
    type V = HeaderView;

    open spec fn view(&self) -> HeaderView {
        HeaderView {
            title: self.title@,
            game_code: self.game_code@,
            maker_code: self.maker_code@,
            version: self.version,
            checksum: self.checksum,
            valid: self.valid,
        }
    }
}

/// Length of the text that starts at `from`: it ends at a NUL or at `to`.
pub open spec fn text_length(rom: Seq<u8>, from: int, to: int) -> int
    decreases to - from,
{
    if from >= to || rom[from] == 0 {
        0
    } else {
        1 + text_length(rom, from + 1, to)
    }
}

/// The text field `from..to`, up to its first NUL.
pub open spec fn text_field(rom: Seq<u8>, from: int, to: int) -> Seq<char> {
    Seq::new(text_length(rom, from, to) as nat, |i: int| rom[from + i] as char)
}

/// The sum of the bytes `from..to`.
pub open spec fn byte_sum(rom: Seq<u8>, from: int, to: int) -> int
    decreases to - from,
{
    if from >= to {
        0
    } else {
        byte_sum(rom, from, to - 1) + rom[to - 1]
    }
}

/// The header checksum: the header bytes, 0x19 and it add up to zero.
pub open spec fn header_checksum(rom: Seq<u8>) -> u8 {
    ((-byte_sum(rom, 0xA0, 0xBD) - 0x19) % 256) as u8
}

impl HeaderView {
    /// The header of `rom`.
    pub open spec fn parsed(rom: Seq<u8>) -> HeaderView {
        HeaderView {
            title: text_field(rom, 0xA0, 0xAC),
            game_code: text_field(rom, 0xAC, 0xB0),
            maker_code: text_field(rom, 0xB0, 0xB2),
            version: rom[0xBC],
            checksum: rom[0xBD],
            valid: rom[0xB2] == 0x96 && rom[0xBD] == header_checksum(rom),
        }
    }
}

/// The text field `from..to`, up to its first NUL.
fn ascii(rom: &[u8], from: usize, to: usize) -> (text: String)
    requires
        from <= to <= rom@.len(),
    ensures
        text@ == text_field(rom@, from as int, to as int),
{
    let mut text = String::new();
    let mut i: usize = from;
    while i < to && rom[i] != 0
        invariant
            from <= i <= to <= rom@.len(),
            text@.len() == i - from,
            text_length(rom@, from as int, to as int) == (i - from) + text_length(
                rom@,
                i as int,
                to as int,
            ),
            forall|k: int| 0 <= k < i - from ==> text@[k] == rom@[from + k] as char,
        decreases to - i,
    {
        text.push(rom[i] as char);
        i = i + 1;
    }
    assert(text@ =~= text_field(rom@, from as int, to as int));
    text
}

impl Clone for Header {
    fn clone(&self) -> (copy: Self)
        ensures
            copy@ == self@,
    {
        Self {
            title: self.title.clone(),
            game_code: self.game_code.clone(),
            maker_code: self.maker_code.clone(),
            version: self.version,
            checksum: self.checksum,
            valid: self.valid,
        }
    }
}

impl Header {
    /// Parses the header from the start of a ROM image, which may be just
    /// the first [`HEADER_END`] bytes of the file. Returns `None` when
    /// `rom` is too short to hold a header.
    #[must_use]
    pub fn from_prefix(rom: &[u8]) -> (header: Option<Self>)
        ensures
            match header {
                Some(header) => rom@.len() >= HEADER_END && header@ == HeaderView::parsed(rom@),
                None => rom@.len() < HEADER_END,
            },
    {
        if rom.len() >= HEADER_END {
            Some(Self::parse(rom))
        } else {
            None
        }
    }

    /// Parses the header from the first `HEADER_END` bytes of a ROM.
    fn parse(rom: &[u8]) -> (header: Self)
        requires
            rom@.len() >= HEADER_END,
        ensures
            header@ == HeaderView::parsed(rom@),
    {
        let mut computed: u8 = 0;
        for i in 0xA0..0xBDusize
            invariant
                rom@.len() >= HEADER_END,
                computed == (-byte_sum(rom@, 0xA0, i as int)) % 256,
        {
            computed = computed.wrapping_sub(rom[i]);
        }
        let computed: u8 = computed.wrapping_sub(0x19);
        let checksum: u8 = rom[0xBD];

        Self {
            title: ascii(rom, 0xA0, 0xAC),
            game_code: ascii(rom, 0xAC, 0xB0),
            maker_code: ascii(rom, 0xB0, 0xB2),
            version: rom[0xBC],
            checksum,
            valid: rom[0xB2] == 0x96 && checksum == computed,
        }
    }
}

/// A loaded cartridge: ROM image plus parsed header.
///
/// The ROM is shared rather than copied: cloning a [`Cartridge`], which
/// a save state does, through [`Gba::snapshot`](crate::Gba::snapshot),
/// must not duplicate up to 32 MiB that nothing ever writes to.
#[derive(Debug)]
pub struct Cartridge {
    /// FNV-1a over the ROM image, taken once at load.
    pub fingerprint: u64,
    /// The ROM image.
    pub rom: Arc<Vec<u8>>,
    /// The parsed header.
    pub header: Header,
    /// The detected backup chip.
    pub save_type: SaveType,
}

/// The mathematical cartridge.
#[verifier::ext_equal]
pub struct CartridgeView {
    /// FNV-1a over the ROM image.
    pub fingerprint: u64,
    /// The ROM image.
    pub rom: Seq<u8>,
    /// The parsed header.
    pub header: HeaderView,
    /// The detected backup chip.
    pub save_type: SaveType,
}

impl View for Cartridge {
    type V = CartridgeView;

    open spec fn view(&self) -> CartridgeView {
        CartridgeView {
            fingerprint: self.fingerprint,
            rom: self.rom@,
            header: self.header@,
            save_type: self.save_type,
        }
    }
}

/// What an unconnected cartridge bus reads at `offset`: each halfword reads
/// as its own (halfword-)address, truncated to 16 bits.
pub open spec fn open_bus_value(offset: u32) -> u16 {
    ((offset >> 1) & 0xFFFF) as u16
}

impl CartridgeView {
    /// The cartridge that holds `rom`.
    pub open spec fn loaded(rom: Seq<u8>) -> CartridgeView {
        CartridgeView {
            fingerprint: fnv1a(rom),
            rom,
            header: HeaderView::parsed(rom),
            save_type: detected_type(rom),
        }
    }

    /// The byte at `offset`.
    pub open spec fn value8(self, offset: u32) -> u8 {
        if offset < self.rom.len() {
            self.rom[offset as int]
        } else {
            (open_bus_value(offset) >> (((offset & 1) * 8) as u16)) as u8
        }
    }

    /// The halfword at `offset`.
    pub open spec fn value16(self, offset: u32) -> u16 {
        if offset + 2 <= self.rom.len() {
            half_at(self.rom, offset as int)
        } else {
            open_bus_value(offset)
        }
    }

    /// The word at `offset`.
    pub open spec fn value32(self, offset: u32) -> u32 {
        if offset + 4 <= self.rom.len() {
            word_at(self.rom, offset as int)
        } else {
            (open_bus_value(offset) as u32) | ((open_bus_value(offset.wrapping_add(2)) as u32)
                << 16)
        }
    }
}

impl Clone for Cartridge {
    fn clone(&self) -> (copy: Self)
        ensures
            copy@ == self@,
    {
        Self {
            fingerprint: self.fingerprint,
            rom: share(&self.rom),
            header: self.header.clone(),
            save_type: self.save_type,
        }
    }
}

impl Cartridge {
    /// The ROM fits the cartridge address space.
    pub open spec fn wf(&self) -> bool {
        self@.rom.len() <= ROM_MAX_SIZE
    }

    /// Wraps a ROM image, validating its size and parsing the header.
    ///
    /// # Errors
    ///
    /// Returns [`GbaError::RomTooSmall`] if the image cannot hold a header,
    /// or [`GbaError::RomTooLarge`] if it exceeds the 32 MiB address space.
    pub fn from_bytes(rom: Vec<u8>) -> (cartridge: Result<Self>)
        ensures
            match cartridge {
                Ok(cartridge) => {
                    &&& HEADER_END <= rom@.len() <= ROM_MAX_SIZE
                    &&& cartridge.wf()
                    &&& cartridge@ == CartridgeView::loaded(rom@)
                },
                Err(err) => if rom@.len() < HEADER_END {
                    err == (GbaError::RomTooSmall { size: rom.len(), min: HEADER_END })
                } else {
                    rom@.len() > ROM_MAX_SIZE && err == (GbaError::RomTooLarge {
                        size: rom.len(),
                        max: ROM_MAX_SIZE,
                    })
                },
            },
    {
        let size: usize = rom.len();
        if size < HEADER_END {
            return Err(GbaError::RomTooSmall { size, min: HEADER_END });
        }
        if size > ROM_MAX_SIZE {
            return Err(GbaError::RomTooLarge { size, max: ROM_MAX_SIZE });
        }
        let header = Header::parse(rom.as_slice());
        let save_type = SaveType::detect(rom.as_slice());
        let fingerprint: u64 = fingerprint(rom.as_slice());
        Ok(Self { fingerprint, rom: Arc::new(rom), header, save_type })
    }

    /// The parsed cartridge header.
    #[must_use]
    pub fn header(&self) -> (header: &Header)
        ensures
            header@ == self@.header,
    {
        &self.header
    }

    /// The backup chip type detected from the ROM.
    #[must_use]
    pub fn save_type(&self) -> (save_type: SaveType)
        ensures
            save_type == self@.save_type,
    {
        self.save_type
    }

    /// Identifies the ROM image, for telling whether a save state was
    /// taken from this cartridge.
    #[must_use]
    pub fn fingerprint(&self) -> (fingerprint: u64)
        ensures
            fingerprint == self@.fingerprint,
    {
        self.fingerprint
    }

    /// The ROM, shared rather than copied.
    pub(crate) fn shared_rom(&self) -> (rom: Arc<Vec<u8>>)
        ensures
            rom == self.rom,
    {
        share(&self.rom)
    }

    /// Raw ROM contents.
    #[must_use]
    pub fn rom(&self) -> (rom: &[u8])
        ensures
            rom@ == self@.rom,
    {
        self.rom.as_slice()
    }

    /// Reads a byte at `offset` from the start of the ROM.
    ///
    /// Offsets past the end of the image return the open-bus pattern the
    /// real cartridge bus produces: each halfword reads as its own
    /// (halfword-)address, truncated to 16 bits.
    #[inline]
    #[must_use]
    pub fn read8(&self, offset: u32) -> (value: u8)
        ensures
            value == self@.value8(offset),
    {
        let rom = self.rom();
        if (offset as usize) < rom.len() {
            rom[offset as usize]
        } else {
            (Self::open_bus(offset) >> (((offset & 1) * 8) as u16)) as u8
        }
    }

    /// Reads a little-endian halfword at the (even) `offset`.
    #[inline]
    #[must_use]
    pub fn read16(&self, offset: u32) -> (value: u16)
        ensures
            value == self@.value16(offset),
    {
        let rom = self.rom();
        let off: usize = offset as usize;
        if off < rom.len() && rom.len() - off >= 2 {
            get16(rom, off)
        } else {
            Self::open_bus(offset)
        }
    }

    /// Reads a little-endian word at the (word-aligned) `offset`.
    #[inline]
    #[must_use]
    pub fn read32(&self, offset: u32) -> (value: u32)
        ensures
            value == self@.value32(offset),
    {
        let rom = self.rom();
        let off: usize = offset as usize;
        if off < rom.len() && rom.len() - off >= 4 {
            get32(rom, off)
        } else {
            let lo: u32 = Self::open_bus(offset) as u32;
            let hi: u32 = Self::open_bus(offset.wrapping_add(2)) as u32;
            lo | (hi << 16)
        }
    }

    /// Open-bus value for the halfword containing `offset`.
    #[inline]
    fn open_bus(offset: u32) -> (value: u16)
        ensures
            value == open_bus_value(offset),
    {
        ((offset >> 1) & 0xFFFF) as u16
    }
}

proof fn lemma_prefix_text(rom: Seq<u8>, from: int, to: int)
    requires
        rom.len() >= HEADER_END,
        0 <= from,
        to <= HEADER_END,
    ensures
        text_length(rom.take(HEADER_END as int), from, to) == text_length(rom, from, to),
        0 <= text_length(rom, from, to),
        from <= to ==> text_length(rom, from, to) <= to - from,
    decreases to - from,
{
    if from < to {
        lemma_prefix_text(rom, from + 1, to);
    }
}

proof fn lemma_prefix_sum(rom: Seq<u8>, from: int, to: int)
    requires
        rom.len() >= HEADER_END,
        0 <= from,
        to <= HEADER_END,
    ensures
        byte_sum(rom.take(HEADER_END as int), from, to) == byte_sum(rom, from, to),
    decreases to - from,
{
    if from < to {
        lemma_prefix_sum(rom, from, to - 1);
    }
}

/// A header can be read from the start of a file alone: it is the header of
/// the whole image.
pub proof fn law_header_is_in_the_prefix(rom: Seq<u8>)
    requires
        rom.len() >= HEADER_END,
    ensures
        HeaderView::parsed(rom.take(HEADER_END as int)) == HeaderView::parsed(rom),
{
    let prefix = rom.take(HEADER_END as int);
    lemma_prefix_text(rom, 0xA0, 0xAC);
    lemma_prefix_text(rom, 0xAC, 0xB0);
    lemma_prefix_text(rom, 0xB0, 0xB2);
    lemma_prefix_sum(rom, 0xA0, 0xBD);
    assert(text_field(prefix, 0xA0, 0xAC) =~= text_field(rom, 0xA0, 0xAC));
    assert(text_field(prefix, 0xAC, 0xB0) =~= text_field(rom, 0xAC, 0xB0));
    assert(text_field(prefix, 0xB0, 0xB2) =~= text_field(rom, 0xB0, 0xB2));
}

} // verus!
