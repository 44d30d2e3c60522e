use tuiba_core::memory::video::VideoMemory;

#[test]
fn vram_mirrors_upper_32k() {
    assert_eq!(VideoMemory::vram_index(0x0_0000), 0x0_0000);
    assert_eq!(VideoMemory::vram_index(0x1_7FFF), 0x1_7FFF);
    assert_eq!(VideoMemory::vram_index(0x1_8000), 0x1_0000);
    assert_eq!(VideoMemory::vram_index(0x1_FFFF), 0x1_7FFF);
    assert_eq!(VideoMemory::vram_index(0x2_0000), 0x0_0000);
    assert_eq!(VideoMemory::vram_index(0xFF_FFFF), 0x1_7FFF);
}

#[test]
fn small_regions_wrap() {
    assert_eq!(VideoMemory::palette_index(0x400), 0);
    assert_eq!(VideoMemory::oam_index(0x7FF), 0x3FF);
}
