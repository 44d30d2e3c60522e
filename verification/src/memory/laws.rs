//! What holds of memory as a whole.

use vstd::prelude::*;

use crate::bytes::{law_half_round_trip, law_word_round_trip};
use crate::memory::bus::{
    ewram_position, iwram_position, lemma_aligned_offsets, offset_in_page, smaller, BusView,
};
use crate::memory::video::{oam_position, palette_position, vram_position};
use crate::memory::{
    region_of, Bus, Memory, MemoryRegion, BIOS_SIZE, EWRAM_SIZE, IWRAM_SIZE,
};

verus! {

broadcast use crate::bits::group_mask_bounds;

/// The memories on the bus have their sizes.
pub open spec fn sized(s: BusView) -> bool {
    &&& s.bios.len() == BIOS_SIZE
    &&& s.ewram.len() == EWRAM_SIZE
    &&& s.iwram.len() == IWRAM_SIZE
    &&& s.video.wf()
}

/// Where an address in work or video memory lies within that memory.
pub open spec fn ram_position(address: u32) -> int {
    let off = offset_in_page(address);
    match region_of(address) {
        Some(MemoryRegion::Ewram) => ewram_position(address),
        Some(MemoryRegion::Iwram) => iwram_position(address),
        Some(MemoryRegion::Palette) => palette_position(off),
        Some(MemoryRegion::Vram) => vram_position(off),
        _ => oam_position(off),
    }
}

/// Whether an address lies in work memory.
pub open spec fn in_work_ram(address: u32) -> bool {
    region_of(address) == Some(MemoryRegion::Ewram) || region_of(address) == Some(
        MemoryRegion::Iwram,
    )
}

/// Whether an address lies in video memory.
pub open spec fn in_video_ram(address: u32) -> bool {
    region_of(address) == Some(MemoryRegion::Palette) || region_of(address) == Some(
        MemoryRegion::Vram,
    ) || region_of(address) == Some(MemoryRegion::Oam)
}

/// Whether two addresses are mirrors of each other: the same place in the
/// same memory.
pub open spec fn mirrors(a: u32, b: u32) -> bool {
    region_of(a) == region_of(b) && ram_position(a) == ram_position(b)
}

/// A word written to work or video memory is read back, at its address and
/// at every mirror of it.
pub proof fn law_word_written_is_read(s: BusView, a: u32, b: u32, value: u32)
    requires
        sized(s),
        in_work_ram(a & !3u32) || in_video_ram(a & !3u32),
        mirrors(a & !3u32, b & !3u32),
    ensures
        Bus::value32(Bus::stored32(s, a, value), b) == value,
{
    reveal(BusView::put32);
    reveal(BusView::value32_at);
    reveal(BusView::accounted);
    lemma_aligned_offsets(a);
    let at = ram_position(a & !3u32);
    if region_of(a & !3u32) == Some(MemoryRegion::Ewram) {
        law_word_round_trip(s.ewram, at, value);
    } else if region_of(a & !3u32) == Some(MemoryRegion::Iwram) {
        law_word_round_trip(s.iwram, at, value);
    } else if region_of(a & !3u32) == Some(MemoryRegion::Palette) {
        law_word_round_trip(s.video.palette, at, value);
    } else if region_of(a & !3u32) == Some(MemoryRegion::Vram) {
        law_word_round_trip(s.video.vram, at, value);
    } else {
        law_word_round_trip(s.video.oam, at, value);
    }
}

/// A halfword written to work or video memory is read back, at its address
/// and at every mirror of it.
pub proof fn law_half_written_is_read(s: BusView, a: u32, b: u32, value: u16)
    requires
        sized(s),
        in_work_ram(a & !1u32) || in_video_ram(a & !1u32),
        mirrors(a & !1u32, b & !1u32),
    ensures
        Bus::value16(Bus::stored16(s, a, value), b) == value,
{
    reveal(BusView::put16);
    reveal(BusView::value16_at);
    reveal(BusView::accounted);
    lemma_aligned_offsets(a);
    let at = ram_position(a & !1u32);
    if region_of(a & !1u32) == Some(MemoryRegion::Ewram) {
        law_half_round_trip(s.ewram, at, value);
    } else if region_of(a & !1u32) == Some(MemoryRegion::Iwram) {
        law_half_round_trip(s.iwram, at, value);
    } else if region_of(a & !1u32) == Some(MemoryRegion::Palette) {
        law_half_round_trip(s.video.palette, at, value);
    } else if region_of(a & !1u32) == Some(MemoryRegion::Vram) {
        law_half_round_trip(s.video.vram, at, value);
    } else {
        law_half_round_trip(s.video.oam, at, value);
    }
}

/// A byte written to work memory is read back, at its address and at every
/// mirror of it.
pub proof fn law_byte_written_is_read(s: BusView, a: u32, b: u32, value: u8)
    requires
        sized(s),
        in_work_ram(a),
        mirrors(a, b),
    ensures
        Bus::value8(Bus::stored8(s, a, value), b) == value,
{
    reveal(BusView::put8);
    reveal(BusView::value8);
    reveal(BusView::accounted);
}

/// Byte writes to OAM and to the object area of VRAM are ignored.
pub proof fn law_object_memory_ignores_bytes(s: BusView, a: u32, value: u8)
    requires
        sized(s),
        region_of(a) == Some(MemoryRegion::Oam) || (region_of(a) == Some(MemoryRegion::Vram)
            && vram_position(offset_in_page(a)) >= 0x1_0000),
    ensures
        Bus::stored8(s, a, value).video == s.video,
{
    reveal(BusView::put8);
    reveal(BusView::accounted);
}

/// Nothing that is written anywhere changes the BIOS or the cartridge.
pub proof fn law_rom_is_read_only(s: BusView, a: u32, byte: u8, half: u16, word: u32)
    ensures
        Bus::stored8(s, a, byte).bios == s.bios,
        Bus::stored16(s, a, half).bios == s.bios,
        Bus::stored32(s, a, word).bios == s.bios,
        Bus::stored8(s, a, byte).cartridge == s.cartridge,
        Bus::stored16(s, a, half).cartridge == s.cartridge,
        Bus::stored32(s, a, word).cartridge == s.cartridge,
{
    reveal(BusView::put8);
    reveal(BusView::put16);
    reveal(BusView::put32);
    reveal(BusView::accounted);
}

/// Aligning an address keeps it in its page.
proof fn lemma_alignment_keeps_page(a: u32)
    by (bit_vector)
    ensures
        (a & !1u32) >> 24 == a >> 24,
        (a & !3u32) >> 24 == a >> 24,
{
}

/// Unmapped pages read as zero, and writes to them cost time and nothing
/// else.
pub proof fn law_unmapped_pages_are_inert(s: BusView, a: u32, byte: u8, half: u16, word: u32)
    requires
        region_of(a) is None,
    ensures
        Bus::value8(s, a) == 0,
        Bus::value16(s, a) == 0,
        Bus::value32(s, a) == 0,
        Bus::stored8(s, a, byte) == s.accounted(a, 1),
        Bus::stored16(s, a, half) == s.accounted(a & !1u32, 2),
        Bus::stored32(s, a, word) == s.accounted(a & !3u32, 4),
{
    lemma_alignment_keeps_page(a);
    reveal(BusView::put8);
    reveal(BusView::put16);
    reveal(BusView::put32);
    reveal(BusView::value8);
    reveal(BusView::value16_at);
    reveal(BusView::value32_at);
}

/// The cartridge shows the same bytes in all three of its wait-state pages,
/// as long as no EEPROM takes the last one over.
pub proof fn law_rom_shows_in_every_page(s: BusView, a: u32, b: u32)
    requires
        region_of(a) == Some(MemoryRegion::Rom),
        region_of(b) == Some(MemoryRegion::Rom),
        a & 0x01FF_FFFF == b & 0x01FF_FFFF,
        !s.eeprom_at(a),
        !s.eeprom_at(b),
    ensures
        Bus::value8(s, a) == Bus::value8(s, b),
{
    reveal(BusView::value8);
}

/// Taking the access cycles resets them, and nothing else.
pub proof fn law_taking_cycles_resets_them(s: BusView)
    ensures
        Bus::elapsed(Bus::settled(s)) == 0,
        Bus::settled(s) == (BusView { access_cycles: 0, ..s }),
{
}

/// Every access is charged its cost, and the address just past it continues
/// it.
pub proof fn law_accesses_are_charged(s: BusView, a: u32, width: u32)
    requires
        width == 1 || width == 2 || width == 4,
    ensures
        s.accounted(a, width).next_sequential == a.wrapping_add(width),
        s.accounted(a, width).access_cycles == s.access_cycles.saturating_add(
            s.cost(a, width),
        ),
{
    reveal(BusView::accounted);
}

/// Every access takes at least one cycle.
pub proof fn law_access_takes_time(s: BusView, address: u32, width: u32)
    requires
        s.wait.pages.len() == 16,
        forall|i: int| 0 <= i < 16 ==> (#[trigger] s.wait.pages[i]).wf(),
        width == 1 || width == 2 || width == 4,
    ensures
        s.cost(address, width) >= 1,
        s.loaded(address, width).access_cycles >= 1,
{
    reveal(BusView::loaded);
    reveal(BusView::accounted);
    crate::bits::mask_bound_u32(address >> 24, 0xF);
    let page = s.wait.page(address);
    assert(page.wf());
    let n = page.s16 as int;
    let halfwords = (width + 1) / 2;
    let buffered = smaller(s.prefetch_cycles as int / n, 8);
    let hit = smaller(buffered, halfwords);
    assert(s.prefetch_cycles as int / n >= 0) by (nonlinear_arith)
        requires
            s.prefetch_cycles as int >= 0,
            n >= 1,
    ;
    assert(halfwords - hit <= (halfwords - hit) * n <= 36) by (nonlinear_arith)
        requires
            0 <= hit <= halfwords <= 2,
            1 <= n <= 18,
    ;
}

} // verus!
