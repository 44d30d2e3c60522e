use tuiba_core::memory::{BIOS_SIZE, EWRAM_SIZE, IWRAM_SIZE, MemoryRegion, OAM_SIZE, PALETTE_SIZE, SRAM_SIZE, base};

#[test]
fn classifies_region_bases() {
    assert_eq!(
        MemoryRegion::from_address(base::BIOS),
        Some(MemoryRegion::Bios)
    );
    assert_eq!(
        MemoryRegion::from_address(base::EWRAM),
        Some(MemoryRegion::Ewram)
    );
    assert_eq!(
        MemoryRegion::from_address(base::IWRAM),
        Some(MemoryRegion::Iwram)
    );
    assert_eq!(MemoryRegion::from_address(base::IO), Some(MemoryRegion::Io));
    assert_eq!(
        MemoryRegion::from_address(base::PALETTE),
        Some(MemoryRegion::Palette)
    );
    assert_eq!(
        MemoryRegion::from_address(base::VRAM),
        Some(MemoryRegion::Vram)
    );
    assert_eq!(
        MemoryRegion::from_address(base::OAM),
        Some(MemoryRegion::Oam)
    );
    assert_eq!(
        MemoryRegion::from_address(base::ROM_WS0),
        Some(MemoryRegion::Rom)
    );
    assert_eq!(
        MemoryRegion::from_address(base::ROM_WS1),
        Some(MemoryRegion::Rom)
    );
    assert_eq!(
        MemoryRegion::from_address(base::ROM_WS2),
        Some(MemoryRegion::Rom)
    );
    assert_eq!(
        MemoryRegion::from_address(base::SRAM),
        Some(MemoryRegion::Sram)
    );
}

#[test]
fn classifies_offsets_within_region() {
    assert_eq!(
        MemoryRegion::from_address(0x0300_7FFC),
        Some(MemoryRegion::Iwram)
    );
    assert_eq!(
        MemoryRegion::from_address(0x09FF_FFFE),
        Some(MemoryRegion::Rom)
    );
    assert_eq!(
        MemoryRegion::from_address(0x0DFF_FFFF),
        Some(MemoryRegion::Rom)
    );
}

#[test]
fn unused_pages_are_unmapped() {
    assert_eq!(MemoryRegion::from_address(0x0100_0000), None);
    assert_eq!(MemoryRegion::from_address(0x1000_0000), None);
    assert_eq!(MemoryRegion::from_address(0xFFFF_FFFF), None);
}

#[test]
fn ram_sizes_are_powers_of_two() {
    for size in [
        BIOS_SIZE,
        EWRAM_SIZE,
        IWRAM_SIZE,
        PALETTE_SIZE,
        OAM_SIZE,
        SRAM_SIZE,
    ] {
        assert!(size.is_power_of_two(), "{size} is not a power of two");
    }
}
