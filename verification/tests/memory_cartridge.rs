use tuiba_core::error::GbaError;
use tuiba_core::memory::{Cartridge, ROM_MAX_SIZE};
use tuiba_core::memory::cartridge::{HEADER_END, Header};

/// Builds a minimal ROM with a valid header and the given title.
fn rom_with_header(title: &str, len: usize) -> Vec<u8> {
    let mut rom = vec![0u8; len.max(HEADER_END)];
    rom[0xA0..0xA0 + title.len()].copy_from_slice(title.as_bytes());
    rom[0xAC..0xB0].copy_from_slice(b"TEST");
    rom[0xB0..0xB2].copy_from_slice(b"00");
    rom[0xB2] = 0x96;
    rom[0xBC] = 1;
    let checksum = rom[0xA0..=0xBC]
        .iter()
        .fold(0u8, |acc, &b| acc.wrapping_sub(b))
        .wrapping_sub(0x19);
    rom[0xBD] = checksum;
    rom
}

#[test]
fn parses_header_fields() {
    let cart = Cartridge::from_bytes(rom_with_header("HELLO", 0x100)).unwrap();
    let h = cart.header();
    assert_eq!(h.title, "HELLO");
    assert_eq!(h.game_code, "TEST");
    assert_eq!(h.maker_code, "00");
    assert_eq!(h.version, 1);
    assert!(h.valid);
}

#[test]
fn header_from_prefix_needs_the_whole_header() {
    let rom = rom_with_header("PREFIX", 0x100);
    assert_eq!(
        Header::from_prefix(&rom[..HEADER_END]).unwrap().title,
        "PREFIX"
    );
    assert_eq!(Header::from_prefix(&rom[..HEADER_END - 1]), None);
}

#[test]
fn detects_bad_checksum_without_rejecting() {
    let mut rom = rom_with_header("BAD", 0x100);
    rom[0xBD] ^= 0xFF;
    let cart = Cartridge::from_bytes(rom).unwrap();
    assert!(!cart.header().valid);
}

#[test]
fn rejects_undersized_rom() {
    assert!(matches!(
        Cartridge::from_bytes(vec![0; 0x10]),
        Err(GbaError::RomTooSmall { size: 0x10, .. })
    ));
}

#[test]
fn rejects_oversized_rom() {
    assert!(matches!(
        Cartridge::from_bytes(vec![0; ROM_MAX_SIZE + 1]),
        Err(GbaError::RomTooLarge { .. })
    ));
}

#[test]
fn reads_little_endian() {
    let mut rom = rom_with_header("LE", 0x100);
    rom[0xF0..0xF4].copy_from_slice(&[0x78, 0x56, 0x34, 0x12]);
    let cart = Cartridge::from_bytes(rom).unwrap();
    assert_eq!(cart.read8(0xF0), 0x78);
    assert_eq!(cart.read16(0xF0), 0x5678);
    assert_eq!(cart.read32(0xF0), 0x1234_5678);
}

#[test]
fn out_of_range_reads_open_bus() {
    let cart = Cartridge::from_bytes(rom_with_header("OB", 0x100)).unwrap();
    assert_eq!(cart.read16(0x1000), 0x0800);
    assert_eq!(cart.read32(0x1000), 0x0801_0800);
    assert_eq!(cart.read8(0x1000), 0x00);
    assert_eq!(cart.read8(0x1001), 0x08);
}
