use tuiba_core::error::GbaError;
use tuiba_core::memory::{BIOS_SIZE, Bus, Cartridge, EWRAM_SIZE, IWRAM_SIZE, Memory, base, reg};
use tuiba_core::memory::cartridge::HEADER_END;

/// Builds a minimal ROM with a valid header and the given title.
fn rom_with_header(title: &str, len: usize) -> Vec<u8> {
    let mut rom = vec![0u8; len.max(HEADER_END)];
    rom[0xA0..0xA0 + title.len()].copy_from_slice(title.as_bytes());
    rom[0xAC..0xB0].copy_from_slice(b"TEST");
    rom[0xB0..0xB2].copy_from_slice(b"00");
    rom[0xB2] = 0x96;
    rom[0xBC] = 1;
    let checksum = rom[0xA0..=0xBC]
        .iter()
        .fold(0u8, |acc, &b| acc.wrapping_sub(b))
        .wrapping_sub(0x19);
    rom[0xBD] = checksum;
    rom
}

fn bus() -> Bus {
    let mut rom = rom_with_header("BUS", 0x200);
    rom[0x1F0..0x1F4].copy_from_slice(&[0xEF, 0xBE, 0xAD, 0xDE]);
    Bus::new(Cartridge::from_bytes(rom).unwrap())
}

#[test]
fn ram_round_trips_all_widths() {
    let mut bus = bus();
    for base in [base::EWRAM, base::IWRAM] {
        bus.write32(base, 0x1234_5678);
        assert_eq!(bus.read32(base), 0x1234_5678);
        assert_eq!(bus.read16(base + 2), 0x1234);
        assert_eq!(bus.read8(base + 1), 0x56);
        bus.write8(base + 3, 0xAA);
        bus.write16(base, 0xBBCC);
        assert_eq!(bus.read32(base), 0xAA34_BBCC);
    }
}

#[test]
fn work_ram_mirrors() {
    let mut bus = bus();
    bus.write16(base::EWRAM, 0xCAFE);
    assert_eq!(bus.read16(base::EWRAM + EWRAM_SIZE as u32), 0xCAFE);
    assert_eq!(bus.read16(0x02FC_0000), 0xCAFE);
    bus.write16(base::IWRAM + 4, 0xF00D);
    assert_eq!(bus.read16(base::IWRAM + IWRAM_SIZE as u32 + 4), 0xF00D);
}

#[test]
fn rom_reads_through_all_wait_state_mirrors() {
    let mut bus = bus();
    assert_eq!(bus.read32(base::ROM_WS0 + 0x1F0), 0xDEAD_BEEF);
    assert_eq!(bus.read32(base::ROM_WS1 + 0x1F0), 0xDEAD_BEEF);
    assert_eq!(bus.read32(base::ROM_WS2 + 0x1F0), 0xDEAD_BEEF);
    assert_eq!(bus.read16(base::ROM_WS0 + 0x1F2), 0xDEAD);
    assert_eq!(bus.read8(base::ROM_WS0 + 0x1F3), 0xDE);
}

#[test]
fn accesses_are_charged_by_region_and_sequence() {
    let mut bus = bus();
    assert_eq!(bus.take_access_cycles(), 0);

    bus.read32(base::IWRAM);
    bus.read8(base::IWRAM + 4);
    assert_eq!(bus.take_access_cycles(), 2, "IWRAM: one cycle each");
    bus.write32(base::EWRAM, 0);
    assert_eq!(
        bus.take_access_cycles(),
        6,
        "EWRAM word: two 3-cycle halves"
    );
    bus.read16(base::PALETTE);
    bus.read32(base::VRAM);
    assert_eq!(bus.take_access_cycles(), 1 + 2);

    // ROM (WS0 default 4/2 waits): first access non-sequential, the
    // next one continues where it left off.
    bus.read16(base::ROM_WS0 + 0x100);
    assert_eq!(bus.take_access_cycles(), 5);
    bus.read16(base::ROM_WS0 + 0x102);
    assert_eq!(bus.take_access_cycles(), 3);
    bus.read32(base::ROM_WS0 + 0x104);
    assert_eq!(bus.take_access_cycles(), 6, "sequential word: S + S");
    bus.read32(base::ROM_WS0 + 0x200);
    assert_eq!(bus.take_access_cycles(), 8, "jump: N + S");
    // Writes elsewhere break the sequence.
    bus.read16(base::ROM_WS0 + 0x204);
    bus.write16(base::IWRAM, 0);
    bus.read16(base::ROM_WS0 + 0x206);
    assert_eq!(bus.take_access_cycles(), 3 + 1 + 5);
    // Every 128 KiB the cartridge restarts its address latch.
    bus.read16(base::ROM_WS0 + 0x1_FFFE);
    bus.read16(base::ROM_WS0 + 0x2_0000);
    assert_eq!(bus.take_access_cycles(), 5 + 5);

    bus.read8(base::SRAM);
    assert_eq!(bus.take_access_cycles(), 5);
    assert_eq!(bus.take_access_cycles(), 0, "taking resets");
}

#[test]
fn prefetch_serves_sequential_fetches_after_idle_time() {
    let mut bus = bus();
    // Without prefetch, leaving the cartridge makes the next access N.
    bus.read16(base::ROM_WS0 + 0x100);
    bus.read32(base::IWRAM);
    bus.take_access_cycles();
    bus.read16(base::ROM_WS0 + 0x102);
    assert_eq!(bus.take_access_cycles(), 5);

    // Prefetch on, WS0 = 4/2.
    bus.write16(base::IO + reg::WAITCNT, 0x4317);
    bus.read16(base::ROM_WS0 + 0x200);
    bus.take_access_cycles();
    bus.read32(base::IWRAM); // 1 idle cycle: not enough for a halfword
    bus.take_access_cycles();
    bus.read16(base::ROM_WS0 + 0x202);
    assert_eq!(
        bus.take_access_cycles(),
        2,
        "continues, but nothing buffered yet"
    );
    bus.read16(base::ROM_WS0 + 0x204);
    assert_eq!(bus.take_access_cycles(), 2, "back to back: plain S");
    bus.idle(2);
    bus.read16(base::ROM_WS0 + 0x206);
    assert_eq!(bus.take_access_cycles(), 1, "one buffered halfword");
    bus.idle(100);
    bus.read32(base::ROM_WS0 + 0x208);
    assert_eq!(bus.take_access_cycles(), 2, "word from the buffer");
    bus.read32(base::ROM_WS0 + 0x20C);
    assert_eq!(bus.take_access_cycles(), 4, "buffer drained: S + S");
    bus.idle(100);
    bus.read16(base::ROM_WS0 + 0x400);
    assert_eq!(bus.take_access_cycles(), 4, "a jump is N, buffer discarded");
    bus.idle(100);
    for i in 0..8 {
        bus.read16(base::ROM_WS0 + 0x402 + i * 2);
    }
    assert_eq!(
        bus.take_access_cycles(),
        1 + 7 * 2,
        "the buffer holds 8 halfwords"
    );
}

#[test]
fn waitcnt_retimes_the_cartridge() {
    let mut bus = bus();
    bus.write16(base::IO + reg::WAITCNT, 0x4317);
    bus.take_access_cycles();
    assert!(bus.wait.prefetch);
    bus.read16(base::ROM_WS0);
    assert_eq!(bus.take_access_cycles(), 4);
    bus.read16(base::ROM_WS0 + 2);
    assert_eq!(bus.take_access_cycles(), 2);
    bus.read8(base::SRAM);
    assert_eq!(bus.take_access_cycles(), 9);
    // Byte and word writes reach it too.
    bus.write8(base::IO + reg::WAITCNT, 0);
    assert_eq!(bus.wait.page(base::ROM_WS0).n16, 5);
    bus.write32(base::IO + reg::WAITCNT, 0x0000_0004);
    assert_eq!(bus.wait.page(base::ROM_WS0).n16, 4);
}

#[test]
fn rom_and_bios_ignore_writes() {
    let mut bus = bus();
    bus.write32(base::ROM_WS0 + 0x1F0, 0);
    assert_eq!(bus.read32(base::ROM_WS0 + 0x1F0), 0xDEAD_BEEF);
    bus.write32(base::BIOS, 0xFFFF_FFFF);
    assert_eq!(bus.read32(base::BIOS), 0);
}

#[test]
fn bios_loads_only_at_exact_size() {
    let mut bus = bus();
    assert!(matches!(
        bus.load_bios(&[0; 10]),
        Err(GbaError::BiosSize { size: 10, .. })
    ));
    let mut bios = vec![0; BIOS_SIZE];
    bios[0..4].copy_from_slice(&[0x18, 0x00, 0x00, 0xEA]); // b 0x68
    bus.load_bios(&bios).unwrap();
    assert_eq!(bus.read32(base::BIOS), 0xEA00_0018);
}

#[test]
fn video_memory_byte_write_semantics() {
    let mut bus = bus();
    bus.write8(base::PALETTE + 3, 0x7C);
    assert_eq!(bus.read16(base::PALETTE + 2), 0x7C7C);

    bus.write8(base::VRAM + 0x100, 0x12);
    assert_eq!(bus.read16(base::VRAM + 0x100), 0x1212);
    bus.write8(base::VRAM + 0x1_0000, 0x34);
    assert_eq!(
        bus.read16(base::VRAM + 0x1_0000),
        0,
        "object VRAM ignores byte writes"
    );

    bus.write8(base::OAM, 0x56);
    assert_eq!(bus.read16(base::OAM), 0, "OAM ignores byte writes");
    bus.write16(base::OAM, 0x5678);
    assert_eq!(bus.read16(base::OAM), 0x5678);
}

#[test]
fn vram_mirror_via_bus() {
    let mut bus = bus();
    bus.write16(base::VRAM + 0x1_0000, 0xABCD);
    assert_eq!(bus.read16(base::VRAM + 0x1_8000), 0xABCD);
    assert_eq!(bus.read16(base::VRAM + 0x2_0000 + 0x1_0000), 0xABCD);
}

#[test]
fn sram_is_eight_bit_bus() {
    let mut bus = bus();
    assert_eq!(
        bus.read8(base::SRAM),
        0xFF,
        "fresh SRAM reads as erased flash"
    );
    bus.write32(base::SRAM, 0x1234_5678);
    assert_eq!(bus.read8(base::SRAM), 0x78);
    assert_eq!(bus.read16(base::SRAM), 0x7878);
    assert_eq!(bus.read32(base::SRAM), 0x7878_7878);
    // Wider stores put the byte meant for the exact address there.
    bus.write16(base::SRAM + 1, 0xAABB);
    assert_eq!(bus.read8(base::SRAM + 1), 0xAA);
    bus.write32(base::SRAM + 2, 0xAABB_CCDD);
    assert_eq!(bus.read8(base::SRAM + 2), 0xBB);
    assert_eq!(bus.read8(base::SRAM + 3), 0xFF, "one byte, not four");
    assert_eq!(bus.read32(base::SRAM + 2), 0xBBBB_BBBB);
}

#[test]
fn io_is_routed() {
    let mut bus = bus();
    bus.write16(base::IO + reg::DISPCNT, 0x0F03);
    assert_eq!(
        bus.read16(base::IO + reg::DISPCNT),
        0x0F03
    );
    assert_eq!(
        bus.read16(base::IO + reg::KEYINPUT),
        0x03FF
    );
}

#[test]
fn unmapped_pages_read_zero_and_swallow_writes() {
    let mut bus = bus();
    bus.write32(0x0100_0000, 0xFFFF_FFFF);
    assert_eq!(bus.read32(0x0100_0000), 0);
    assert_eq!(bus.read8(0xF000_0000), 0);
}
