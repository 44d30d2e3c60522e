//! What addresses mean, and what save memory and cartridges hold, said in
//! numbers.

use vstd::prelude::*;

use crate::apu::psg_laws::lemma_byte_fields;
use crate::bytes_laws::law_little_endian;
use crate::memory::backup::{
    detected_type, occurs, stands_at, BackupView, FlashView, SaveType,
};
use crate::memory::bus::BusView;
use crate::memory::cartridge::{byte_sum, fnv1a, text_length, CartridgeView, HeaderView};
use crate::memory::device_laws::unlocked;
use crate::memory::gpio::{hour_byte, latched, packed, DateTime};
use crate::memory::laws::sized;
use crate::memory::video::{palette_position, vram_position};
use crate::memory::{region_of, Bus, Memory, MemoryRegion};

verus! {

broadcast use crate::bits::group_mask_bounds;

/// Work and video memory fill their pages over and over: bytes are read from
/// the address within the page, counted modulo the size of the memory; the
/// upper part of video memory shows its last third twice.
pub proof fn law_memory_map(s: BusView, a: u32)
    requires
        sized(s),
    ensures
        ({
            let page = a as int / 0x100_0000;
            let upper = a as int % 0x2_0000;
            &&& page == 0 && a < 0x4000 ==> Bus::value8(s, a) == s.bios[a as int]
            &&& page == 2 ==> Bus::value8(s, a) == s.ewram[a as int % 0x4_0000]
            &&& page == 3 ==> Bus::value8(s, a) == s.iwram[a as int % 0x8000]
            &&& page == 5 ==> Bus::value8(s, a) == s.video.palette[a as int % 0x400]
            &&& page == 6 ==> Bus::value8(s, a) == s.video.vram[if upper < 0x1_8000 {
                upper
            } else {
                upper - 0x8000
            }]
            &&& page == 7 ==> Bus::value8(s, a) == s.video.oam[a as int % 0x400]
            &&& page == 14 ==> Bus::value8(s, a) == s.backup.value((a % 0x100_0000) as u32)
            &&& page == 1 || page > 14 ==> Bus::value8(s, a) == 0
        }),
{
    reveal(BusView::value8);
    lemma_address(a);
    lemma_address((a % 0x100_0000) as u32);
    assert((a as int % 0x100_0000) % 0x2_0000 == a as int % 0x2_0000);
    assert((a as int % 0x100_0000) % 0x400 == a as int % 0x400);
}

/// Halfwords and words of work memory are the bytes at their addresses, the
/// lowest address least significant.
pub proof fn law_words_are_bytes(s: BusView, a: u32)
    requires
        sized(s),
        a as int / 0x100_0000 == 2 || a as int / 0x100_0000 == 3,
        a % 4 == 0,
    ensures
        ({
            let byte = |k: int| Bus::value8(s, (a + k) as u32) as int;
            &&& Bus::value16(s, a) == byte(0) + 256 * byte(1)
            &&& Bus::value32(s, a) == byte(0) + 256 * byte(1) + 0x1_0000 * byte(2) + 0x100_0000
                * byte(3)
        }),
{
    reveal(BusView::value8);
    reveal(BusView::value16_at);
    reveal(BusView::value32_at);
    crate::cpu::arm::transfer_laws::lemma_aligned_word(a);
    lemma_page(a, 0);
    lemma_page(a, 1);
    lemma_page(a, 2);
    lemma_page(a, 3);
    if a as int / 0x100_0000 == 2 {
        law_little_endian(s.ewram, a as int % 0x4_0000);
    } else {
        law_little_endian(s.iwram, a as int % 0x8000);
    }
}

/// An address in numbers.
#[verifier::rlimit(40)]
proof fn lemma_address(a: u32)
    ensures
        a >> 24 == a as int / 0x100_0000,
        a & 0x00FF_FFFF == a as int % 0x100_0000,
        (a & 0x00FF_FFFF) & 0x3_FFFF == a as int % 0x4_0000,
        (a & 0x00FF_FFFF) & 0x7FFF == a as int % 0x8000,
        (a & 0x00FF_FFFF) & 0x3FF == a as int % 0x400,
        (a & 0x00FF_FFFF) & 0x1_FFFF == a as int % 0x2_0000,
        a & 0x1_FFFF == a as int % 0x2_0000,
{
    crate::bits::word_facts(a, 0, 0, 0);
}

proof fn lemma_page(a: u32, k: int)
    requires
        a as int / 0x100_0000 == 2 || a as int / 0x100_0000 == 3,
        a % 4 == 0,
        0 <= k < 4,
    ensures
        a + k <= u32::MAX,
        ({
            let b = (a + k) as u32;
            &&& b >> 24 == a as int / 0x100_0000
            &&& (b & 0x00FF_FFFF) & 0x3_FFFF == a as int % 0x4_0000 + k
            &&& (b & 0x00FF_FFFF) & 0x7FFF == a as int % 0x8000 + k
        }),
{
    let n = a as int;
    lemma_address((a + k) as u32);
    lemma_not_crossed(n, k, 0x100_0000);
    lemma_not_crossed(n, k, 0x4_0000);
    lemma_not_crossed(n, k, 0x8000);
}

/// Going on by less than four from a multiple of four crosses no larger
/// boundary.
proof fn lemma_not_crossed(n: int, k: int, m: int)
    requires
        n >= 0,
        n % 4 == 0,
        0 <= k < 4,
        m == 0x100_0000 || m == 0x4_0000 || m == 0x8000,
    ensures
        (n + k) / m == n / m,
        (n + k) % m == n % m + k,
{
    if m == 0x100_0000 {
        assert((n % 0x100_0000) % 4 == 0);
    } else if m == 0x4_0000 {
        assert((n % 0x4_0000) % 4 == 0);
    } else {
        assert((n % 0x8000) % 4 == 0);
    }
    vstd::arithmetic::div_mod::lemma_fundamental_div_mod(n, m);
    vstd::arithmetic::div_mod::lemma_mod_bound(n, m);
    assert(m * (n / m) == (n / m) * m) by (nonlinear_arith);
    vstd::arithmetic::div_mod::lemma_fundamental_div_mod_converse(n + k, m, n / m, n % m + k);
}

/// A byte that is written to the palette or to the background part of video
/// memory fills its whole halfword.
pub proof fn law_video_byte_writes(s: BusView, a: u32, value: u8)
    requires
        sized(s),
        a as int / 0x100_0000 == 5 || (a as int / 0x100_0000 == 6 && a % 0x2_0000 < 0x1_0000),
        a % 2 == 0,
    ensures
        Bus::value8(Bus::stored8(s, a, value), a) == value,
        Bus::value8(Bus::stored8(s, a, value), (a + 1) as u32) == value,
        Bus::value8(Bus::stored8(s, (a + 1) as u32, value), a) == value,
{
    reveal(BusView::value8);
    reveal(BusView::put8);
    reveal(BusView::accounted);
    lemma_video_positions(a);
    lemma_doubled(value);
}

/// Where an even address of video memory and the one behind it lie.
proof fn lemma_video_positions(a: u32)
    requires
        a as int / 0x100_0000 == 5 || (a as int / 0x100_0000 == 6 && a % 0x2_0000 < 0x1_0000),
        a % 2 == 0,
    ensures
        ({
            let b = (a + 1) as u32;
            let (p, q) = (palette_position(a & 0x00FF_FFFF), vram_position(a & 0x00FF_FFFF));
            &&& region_of(a) == region_of(b)
            &&& region_of(a) == Some(
                if a as int / 0x100_0000 == 5 {
                    MemoryRegion::Palette
                } else {
                    MemoryRegion::Vram
                },
            )
            &&& palette_position(b & 0x00FF_FFFF) == p + 1
            &&& p % 2 == 0
            &&& 0 <= p < 0x400 - 1
            &&& a as int / 0x100_0000 == 6 ==> vram_position(b & 0x00FF_FFFF) == q + 1 && q % 2 == 0
                && 0 <= q < 0x1_0000 - 1
        }),
{
    lemma_address(a);
    lemma_address((a + 1) as u32);
    lemma_odd_follows(a as int);
}

/// An even number and the one behind it lie in the same page.
proof fn lemma_odd_follows(n: int)
    requires
        n >= 0,
        n % 2 == 0,
    ensures
        (n + 1) / 0x100_0000 == n / 0x100_0000,
        (n + 1) % 0x400 == n % 0x400 + 1,
        (n % 0x400) % 2 == 0,
        (n + 1) % 0x2_0000 == n % 0x2_0000 + 1,
        (n % 0x2_0000) % 2 == 0,
{
    vstd::arithmetic::div_mod::lemma_mod_mod(n, 2, 0x200);
    vstd::arithmetic::div_mod::lemma_mod_mod(n, 2, 0x1_0000);
    vstd::arithmetic::div_mod::lemma_mod_mod(n, 2, 0x80_0000);
    lemma_in_step(n, 0x400);
    lemma_in_step(n, 0x2_0000);
    lemma_in_step(n, 0x100_0000);
}

proof fn lemma_in_step(n: int, size: int)
    requires
        size > 0,
        n % size + 1 < size,
    ensures
        (n + 1) / size == n / size,
        (n + 1) % size == n % size + 1,
{
    vstd::arithmetic::div_mod::lemma_fundamental_div_mod(n, size);
    vstd::arithmetic::div_mod::lemma_mod_bound(n, size);
    vstd::arithmetic::mul::lemma_mul_is_commutative(size, n / size);
    vstd::arithmetic::div_mod::lemma_fundamental_div_mod_converse(
        n + 1,
        size,
        n / size,
        n % size + 1,
    );
}

/// The page of an address, and its place within 128 KiB.
#[verifier::rlimit(40)]
proof fn lemma_wait_page(a: u32)
    ensures
        a >> 24 == a as int / 0x100_0000,
        (a >> 24) & 0xF == (a as int / 0x100_0000) % 16,
        a & 0x1_FFFF == a as int % 0x2_0000,
{
    lemma_address(a);
    crate::bits::word_facts(a >> 24, 0, 0, 0);
}

/// A byte in both halves of a halfword.
proof fn lemma_doubled(value: u8)
    ensures
        ((value * 0x0101) as u16) as u8 == value,
        (((value * 0x0101) as u16) >> 8) as u8 == value,
{
    let doubled = (value * 0x0101) as u16;
    crate::apu::psg_laws::lemma_wave_fields(doubled);
    assert(doubled as int % 256 == value && doubled as int / 256 == value);
}

/// The cartridge shows its bytes from the start of its pages on; past its end
/// a halfword reads as half its offset, as a bus does that nothing drives.
#[verifier::rlimit(40)]
pub proof fn law_cartridge_bytes(c: CartridgeView, offset: u32)
    requires
        offset % 2 == 0,
        c.rom.len() <= 0x200_0000,
    ensures
        offset < c.rom.len() ==> c.value8(offset) == c.rom[offset as int],
        offset + 2 <= c.rom.len() ==> c.value16(offset) == c.rom[offset as int] + 256
            * c.rom[offset + 1],
        offset + 2 > c.rom.len() ==> c.value16(offset) == (offset as int / 2) % 0x1_0000,
{
    crate::bits::word_facts(offset, 0, 0, 0);
    crate::bytes_laws::lemma_half_number(c.rom[offset as int], c.rom[offset + 1]);
}

/// A text field of a header is its bytes up to the first zero.
proof fn lemma_text(rom: Seq<u8>, from: int, to: int)
    requires
        0 <= from <= to <= rom.len(),
    ensures
        ({
            let n = text_length(rom, from, to);
            &&& 0 <= n <= to - from
            &&& forall|i: int| from <= i < from + n ==> rom[i] != 0
            &&& from + n < to ==> rom[from + n] == 0
        }),
    decreases to - from,
{
    if from < to && rom[from] != 0 {
        lemma_text(rom, from + 1, to);
    }
}

/// Whether `text` is the bytes `from..to` of a ROM up to the first zero.
pub open spec fn is_text(rom: Seq<u8>, from: int, to: int, text: Seq<char>) -> bool {
    &&& text.len() <= to - from
    &&& forall|i: int|
        0 <= i < text.len() ==> rom[from + i] != 0 && #[trigger] text[i] == rom[from + i] as char
    &&& text.len() < to - from ==> rom[from + text.len()] == 0
}

/// The header of a cartridge: title, game code and maker, version and
/// checksum at their places. It is valid if a fixed byte is there and the
/// bytes that the checksum is over, 25 and it add up to a multiple of 256.
pub proof fn law_header(rom: Seq<u8>)
    requires
        rom.len() >= 0xC0,
    ensures
        ({
            let header = HeaderView::parsed(rom);
            &&& is_text(rom, 0xA0, 0xAC, header.title)
            &&& is_text(rom, 0xAC, 0xB0, header.game_code)
            &&& is_text(rom, 0xB0, 0xB2, header.maker_code)
            &&& header.version == rom[0xBC]
            &&& header.checksum == rom[0xBD]
            &&& header.valid == (rom[0xB2] == 0x96 && (byte_sum(rom, 0xA0, 0xBD) + 25
                + rom[0xBD]) % 256 == 0)
        }),
{
    lemma_text(rom, 0xA0, 0xAC);
    lemma_text(rom, 0xAC, 0xB0);
    lemma_text(rom, 0xB0, 0xB2);
}

/// The kind of save memory is told by the first of these words that stands
/// anywhere in the ROM: FLASH1M_V; FLASH512_V or FLASH_V; SRAM_V or SRAM_F_V;
/// EEPROM_V.
pub proof fn law_save_types(rom: Seq<u8>, at: int)
    ensures
        ({
            let flash = seq![0x46u8, 0x4C, 0x41, 0x53, 0x48];
            let big = flash + seq![0x31u8, 0x4D, 0x5F, 0x56];
            let mid = flash + seq![0x35u8, 0x31, 0x32, 0x5F, 0x56];
            let plain = flash + seq![0x5Fu8, 0x56];
            let sram = seq![0x53u8, 0x52, 0x41, 0x4D, 0x5F, 0x56];
            let sram_f = seq![0x53u8, 0x52, 0x41, 0x4D, 0x5F, 0x46, 0x5F, 0x56];
            let eeprom = seq![0x45u8, 0x45, 0x50, 0x52, 0x4F, 0x4D, 0x5F, 0x56];
            let found = detected_type(rom);
            &&& stands_at(rom, big, at) ==> found == SaveType::Flash128K
            &&& stands_at(rom, mid, at) || stands_at(rom, plain, at) ==> found
                == SaveType::Flash64K || (found == SaveType::Flash128K && occurs(rom, big))
            &&& found == SaveType::Flash64K ==> occurs(rom, mid) || occurs(rom, plain)
            &&& found == SaveType::Sram ==> occurs(rom, sram) || occurs(rom, sram_f)
            &&& found == SaveType::Eeprom ==> occurs(rom, eeprom)
            &&& (stands_at(rom, sram, at) || stands_at(rom, sram_f, at)) && !occurs(rom, big)
                && !occurs(rom, mid) && !occurs(rom, plain) ==> found == SaveType::Sram
            &&& stands_at(rom, eeprom, at) ==> found != SaveType::Unknown
        }),
{
    let flash = seq![0x46u8, 0x4C, 0x41, 0x53, 0x48];
    assert(flash + seq![0x31u8, 0x4D, 0x5F, 0x56]
        =~= crate::memory::backup::flash1m_signature());
    assert(flash + seq![0x35u8, 0x31, 0x32, 0x5F, 0x56]
        =~= crate::memory::backup::flash512_signature());
    assert(flash + seq![0x5Fu8, 0x56] =~= crate::memory::backup::flash_signature());
}

/// The save memory that a cartridge comes with, all bits set: 64 or 128 KiB of
/// flash, which names its maker and type when asked to, or 32 KiB of RAM.
pub proof fn law_fresh_save_memory()
    ensures
        ({
            let small = FlashView::erased(0x1_0000);
            let large = FlashView::erased(0x2_0000);
            let ram = BackupView::fresh(SaveType::Sram);
            &&& BackupView::fresh(SaveType::Flash64K) == BackupView::Flash(small)
            &&& BackupView::fresh(SaveType::Flash128K) == BackupView::Flash(large)
            &&& BackupView::fresh(SaveType::Unknown) == ram
            &&& ram.contents().len() == 0x8000
            &&& forall|i: int| 0 <= i < 0x8000 ==> #[trigger] ram.contents()[i] == 0xFF
            &&& forall|i: int| 0 <= i < 0x2_0000 ==> #[trigger] large.data[i] == 0xFF
            &&& small.manufacturer == 0xC2 && small.device == 0x1C
            &&& large.manufacturer == 0x62 && large.device == 0x13
        }),
{
}

/// A flash chip that is asked for its name shows it in place of its first two
/// bytes, until it is told to stop; no byte changes.
pub proof fn law_flash_name(flash: FlashView)
    requires
        flash.wf(),
        flash.state == crate::memory::backup::FlashState::Idle,
    ensures
        ({
            let asked = unlocked(flash, 0x90);
            let back = unlocked(asked, 0xF0);
            &&& asked.value(0) == flash.manufacturer
            &&& asked.value(1) == flash.device
            &&& asked.data == flash.data
            &&& back.value(0) == flash.data[back.index(0)]
            &&& back.data == flash.data
            &&& !back.id_mode
        }),
{
    crate::bits::constant_facts();
    crate::memory::backup::lemma_low_bits(0x5555);
    crate::memory::backup::lemma_low_bits(0x2AAA);
    crate::memory::backup::lemma_low_bits(0);
    crate::memory::backup::lemma_low_bits(1);
}

/// A number below a hundred is sent as its two decimal digits, and an hour of
/// twelve with the highest bit for the afternoon.
pub proof fn law_decimal_digits(n: u8, status: u8)
    requires
        n < 100,
    ensures
        packed(n) == 16 * (n / 10) + n % 10,
        (status / 64) % 2 == 1 ==> hour_byte(n, status) == 16 * (n / 10) + n % 10,
        n < 24 && (status / 64) % 2 == 0 ==> hour_byte(n, status) == 16 * ((n % 12) / 10) + (n % 12)
            % 10 + if n >= 12 {
            128int
        } else {
            0
        },
{
    lemma_byte_fields(n);
    lemma_byte_fields((n % 12) as u8);
    lemma_byte_fields(status);
    lemma_byte_fields(packed((n % 12) as u8));
}

/// The clock sends year, month, day, weekday, hour, minute and second, or from
/// the hour on.
pub proof fn law_clock_order(now: DateTime, status: u8)
    ensures
        ({
            let whole = latched(now, status, 2);
            let time = latched(now, status, 3);
            &&& whole[0] == packed((now.year % 100) as u8)
            &&& whole[1] == packed(now.month)
            &&& whole[2] == packed(now.day)
            &&& whole[3] == now.weekday
            &&& whole[4] == hour_byte(now.hour, status)
            &&& whole[5] == packed(now.minute)
            &&& whole[6] == packed(now.second)
            &&& time[0] == whole[4] && time[1] == whole[5] && time[2] == whole[6]
        }),
{
}

/// An access that goes on where the last one ended costs less, but for the
/// start of every 128 KiB of the cartridge; with the prefetch buffer on, each
/// halfword that has been fetched meanwhile costs one cycle.
pub proof fn law_sequential_accesses(s: BusView, a: u32)
    requires
        s.wait.pages.len() == 16,
    ensures
        ({
            let page = a as int / 0x100_0000;
            let access = s.wait.pages[page % 16];
            let on = a == s.next_sequential;
            &&& page < 8 || page == 14 ==> s.cost(a, 2) == access.cost(2, on)
            &&& 8 <= page < 14 && !s.wait.prefetch ==> s.cost(a, 4) == access.cost(
                4,
                on && a % 0x2_0000 != 0,
            )
            &&& 8 <= page < 14 && s.wait.prefetch && a == s.rom_next && a % 0x2_0000 != 0
                && access.s16 > 0 && s.prefetch_cycles >= 2 * access.s16 ==> s.cost(a, 4) == 2
            &&& 8 <= page < 14 && s.wait.prefetch && a == s.rom_next && a % 0x2_0000 != 0
                && access.s16 > 0 && s.prefetch_cycles < access.s16 ==> s.cost(a, 4) == 2
                * access.s16
        }),
{
    lemma_wait_page(a);
    let page = a as int / 0x100_0000;
    let access = s.wait.pages[page % 16];
    if access.s16 > 0 {
        let n = access.s16 as int;
        let p = s.prefetch_cycles as int;
        if p < n {
            vstd::arithmetic::div_mod::lemma_fundamental_div_mod_converse(p, n, 0, p);
        } else if p >= 2 * n {
            assert(p / n >= 2) by (nonlinear_arith)
                requires
                    p >= 2 * n,
                    n > 0,
            ;
        }
    }
}

/// The registers of the machine lie at these offsets.
pub proof fn law_register_map()
    ensures
        crate::memory::reg::DISPCNT == 0x000,
        crate::memory::reg::DISPSTAT == 0x004,
        crate::memory::reg::VCOUNT == 0x006,
        crate::memory::reg::BG0CNT == 0x008,
        crate::memory::reg::BG0HOFS == 0x010,
        crate::memory::reg::BG2PA == 0x020,
        crate::memory::reg::BG3PA == 0x030,
        crate::memory::reg::WIN0H == 0x040,
        crate::memory::reg::MOSAIC == 0x04C,
        crate::memory::reg::BLDCNT == 0x050,
        crate::memory::reg::SOUNDCNT_L == 0x080,
        crate::memory::reg::SOUNDCNT_H == 0x082,
        crate::memory::reg::SOUNDCNT_X == 0x084,
        crate::memory::reg::DMA0SAD == 0x0B0,
        crate::memory::reg::TM0CNT_L == 0x100,
        crate::memory::reg::KEYINPUT == 0x130,
        crate::memory::reg::IE == 0x200,
        crate::memory::reg::IF == 0x202,
        crate::memory::reg::WAITCNT == 0x204,
        crate::memory::reg::IME == 0x208,
        crate::memory::reg::HALTCNT == 0x301,
        crate::apu::reg::SOUND1CNT_L == 0x060,
        crate::apu::reg::SOUND2CNT_L == 0x068,
        crate::apu::reg::SOUND3CNT_L == 0x070,
        crate::apu::reg::SOUND4CNT_L == 0x078,
        crate::apu::reg::WAVE_RAM == 0x090,
        crate::apu::reg::FIFO_A == 0x0A0,
        crate::apu::reg::FIFO_B == 0x0A4,
{
}

/// The fingerprint of a ROM: the 64-bit FNV-1a hash, from its offset basis,
/// by its prime.
pub proof fn law_fingerprint(rom: Seq<u8>, byte: u8)
    ensures
        fnv1a(Seq::empty()) == 14_695_981_039_346_656_037,
        fnv1a(rom.push(byte)) == ((fnv1a(rom) ^ (byte as u64)) * 1_099_511_628_211)
            % 0x1_0000_0000_0000_0000,
{
    assert(rom.push(byte).drop_last() =~= rom);
}

/// With one halfword of a word in the prefetch buffer, that one takes a single
/// cycle and the other a sequential access.
pub proof fn law_partly_prefetched(s: BusView, a: u32)
    requires
        s.wait.pages.len() == 16,
        8 <= a as int / 0x100_0000 < 14,
        a % 0x2_0000 != 0,
        a == s.rom_next,
        s.wait.prefetch,
        ({
            let n = s.wait.pages[(a as int / 0x100_0000) % 16].s16;
            0 < n <= s.prefetch_cycles < 2 * n
        }),
    ensures
        s.cost(a, 4) == 1 + s.wait.pages[(a as int / 0x100_0000) % 16].s16,
        s.cost(a, 2) == 1,
{
    lemma_wait_page(a);
    let page = a as int / 0x100_0000;
    let n = s.wait.pages[page % 16].s16 as int;
    let p = s.prefetch_cycles as int;
    vstd::arithmetic::div_mod::lemma_fundamental_div_mod_converse(p, n, 1, p - n);
    vstd::arithmetic::mul::lemma_mul_basics(n);
    assert((1 - 1) * n == 0);
}

/// Cycles without a cartridge access fill the prefetch buffer, up to eight
/// halfwords at nine cycles; a cartridge access empties it, and the next one
/// that follows on it continues from it.
pub proof fn law_prefetch_fills(s: BusView, cycles: u32, a: u32, width: u32)
    requires
        width <= 4,
        a < 0x0FFF_0000,
    ensures
        s.idled(cycles).prefetch_cycles == if s.prefetch_cycles + cycles < 72 {
            s.prefetch_cycles + cycles
        } else {
            72
        },
        s.idled(cycles).rom_next == s.rom_next,
        ({
            let page = a as int / 0x100_0000;
            let after = s.accounted(a, width);
            &&& after.next_sequential == a + width
            &&& 8 <= page < 14 ==> after.prefetch_cycles == 0 && after.rom_next == a + width
            &&& page < 8 ==> after.rom_next == s.rom_next && after.prefetch_cycles == s.idled(
                s.cost(a, width),
            ).prefetch_cycles
        }),
{
    reveal(BusView::accounted);
    lemma_wait_page(a);
}

/// Where an address lies on a flash chip: within the selected bank of 64 KiB.
/// Erasing a sector there sets its 4096 bytes and no others.
pub proof fn law_flash_sectors(flash: FlashView, address: u32, i: int)
    requires
        flash.wf(),
        flash.state is Idle,
        address < 0x1_0000,
        address % 0x1000 == 0,
        flash.bank * 0x1_0000 + address < flash.data.len(),
        0 <= i < flash.data.len(),
    ensures
        ({
            let place = flash.bank * 0x1_0000 + address;
            let ready = unlocked(flash, 0x80).write(0x5555, 0xAA).write(0x2AAA, 0x55);
            let erased = ready.write(address, 0x30);
            &&& flash.index(address) == place
            &&& erased.data.len() == flash.data.len()
            &&& erased.data[i] == if place <= i < place + 0x1000 {
                0xFF
            } else {
                flash.data[i]
            }
            &&& erased == (FlashView { data: erased.data, ..flash })
        }),
{
    crate::bits::constant_facts();
    crate::memory::backup::lemma_low_bits(address);
    let place = flash.bank * 0x1_0000 + address;
    vstd::arithmetic::div_mod::lemma_small_mod(place as nat, flash.data.len());
}

} // verus!
