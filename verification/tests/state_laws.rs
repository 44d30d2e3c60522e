use tuiba_core::error::GbaError;
use tuiba_core::gba::Gba;
use tuiba_core::memory::gpio::DateTime;
use tuiba_core::memory::{base, reg, Cartridge, Memory};
use tuiba_core::state::machine::{take_apart, MachineParts};
use tuiba_core::state::Snapshot;

/// A cartridge with the given save-type string that counts in EWRAM.
fn cartridge(save: &[u8]) -> Cartridge {
    let mut rom = vec![0u8; 0x200];
    let code: [u32; 4] = [
        0xE3A0_0402, // mov r0, #0x02000000
        0xE281_1001, // add r1, r1, #1
        0xE580_1000, // str r1, [r0]
        0xEAFF_FFFC, // b back to the add
    ];
    for (i, word) in code.iter().enumerate() {
        rom[i * 4..i * 4 + 4].copy_from_slice(&word.to_le_bytes());
    }
    rom[0xA0..0xA4].copy_from_slice(b"LAWS");
    rom[0x100..0x100 + save.len()].copy_from_slice(save);
    Cartridge::from_bytes(rom).unwrap()
}

fn running(save: &[u8]) -> (Cartridge, Gba) {
    let cartridge = cartridge(save);
    let mut gba = Gba::new(cartridge.clone());
    gba.bus.io.write16(reg::SOUNDCNT_X, 0x80);
    gba.bus.io.write16(reg::SOUNDCNT_H, 2);
    gba.bus.io.write16(reg::TM0CNT_H, 0x81);
    gba.set_keyinput(0x03FE);
    gba.set_clock(DateTime {
        year: 2026,
        month: 2,
        day: 28,
        weekday: 6,
        hour: 23,
        minute: 59,
        second: 58,
    });
    gba.load_save_data(&[0x5A; 0x200]);
    gba.run_frame();
    (cartridge, gba)
}

#[test]
fn every_kind_of_machine_survives_its_state_file() {
    for save in [&b"SRAM_V"[..], b"FLASH512_V", b"FLASH1M_V", b"EEPROM_V", b""] {
        let (cartridge, gba) = running(save);
        let bytes = gba.snapshot().to_bytes();
        let read = Snapshot::from_bytes(&bytes, &cartridge).unwrap();
        assert_eq!(read.to_bytes(), bytes);
        assert_eq!(read.title(), "LAWS");
        assert_eq!(read.framebuffer().pixels(), gba.framebuffer().pixels());
        assert_eq!(read.gba.audio(), gba.audio());
        assert_eq!(read.gba.save_data(), gba.save_data());
        assert_eq!(read.gba.cpu.cycles, gba.cpu.cycles);
    }
}

#[test]
fn dropped_sound_is_all_that_a_restored_machine_misses() {
    let (_, mut kept) = running(b"SRAM_V");
    let snapshot = kept.snapshot();
    let heard = kept.audio().to_vec();
    assert!(!heard.is_empty());
    let mut restored = kept.clone();
    restored.restore(&snapshot);
    assert!(restored.audio().is_empty());
    for _ in 0..3 {
        kept.run_frame();
        restored.run_frame();
        assert_eq!(kept.framebuffer().pixels(), restored.framebuffer().pixels());
        assert_eq!(kept.cpu.cycles, restored.cpu.cycles);
        assert_eq!(kept.bus.read32(base::EWRAM), restored.bus.read32(base::EWRAM));
        assert_eq!(kept.audio()[..heard.len()], heard[..]);
        assert_eq!(&kept.audio()[heard.len()..], restored.audio());
    }
}

#[test]
fn a_state_file_is_a_header_and_the_fields_in_order() {
    let (cartridge, gba) = running(b"");
    let bytes = gba.snapshot().to_bytes();
    assert_eq!(&bytes[..8], b"TUIBAST\0");
    assert_eq!(&bytes[8..10], &[1, 0]);
    assert_eq!(bytes[10..18], cartridge.fingerprint().to_le_bytes());

    let registers: [u32; 16] = std::array::from_fn(|i| gba.cpu.regs.get(i));
    let start = postcard::to_allocvec(&(registers, gba.cpu.regs.cpsr.0)).unwrap();
    assert_eq!(&bytes[18..18 + start.len()], &start[..]);

    // The last fields: where the LCD is, no wait call, no unknown BIOS call.
    let end = postcard::to_allocvec(&(
        gba.ppu.vcount(),
        gba.ppu.line_cycle,
        gba.ppu.in_hblank,
        None::<(u16, u32)>,
        None::<u8>,
    ))
    .unwrap();
    assert_eq!(&bytes[bytes.len() - end.len()..], &end[..]);

    let parts: MachineParts = postcard::from_bytes(&bytes[18..]).unwrap();
    let (memories, backup, io, video, header, ..) = &parts.1;
    assert_eq!((memories.0.len(), memories.1.len(), memories.2.len()), (0x4000, 0x4_0000, 0x8000));
    assert_eq!((backup.0, backup.1.len(), backup.2, backup.3), (0, 0x8000, None, None));
    assert_eq!((io.0.len(), io.1), (0x400, 0x03FE));
    assert_eq!((video.0.len(), video.1.len(), video.2.len()), (0x400, 0x1_8000, 0x400));
    assert_eq!((header.0, header.1 .0.as_str(), header.2), (cartridge.fingerprint(), "LAWS", 0));
    assert_eq!(postcard::to_allocvec(&parts).unwrap(), &bytes[18..]);
}

#[test]
fn a_small_struct_is_laid_out_byte_for_byte() {
    // Timer 0 runs at one tick in 64: reload, counter, control, fraction.
    let (_, mut gba) = running(b"");
    gba.bus.io.write16(reg::TM0CNT_H, 0);
    gba.bus.io.write16(reg::TM0CNT_L, 0x0123);
    gba.bus.io.write16(reg::TM0CNT_H, 0x81);
    let parts = take_apart(&gba);
    let timer = parts.1 .2 .3 .0;
    assert_eq!(timer, (0x0123, 0x0123, 0x81, 0));
    assert_eq!(
        postcard::to_allocvec(&timer).unwrap(),
        [0xA3, 0x02, 0xA3, 0x02, 0x81, 0x01, 0x00]
    );
}

#[test]
fn parts_of_no_machine_are_refused() {
    let (cartridge, gba) = running(b"");
    let bytes = gba.snapshot().to_bytes();
    let refused = |change: &dyn Fn(&mut MachineParts)| {
        let mut parts = take_apart(&gba);
        change(&mut parts);
        let mut file = bytes[..18].to_vec();
        file.extend(postcard::to_allocvec(&parts).unwrap());
        match Snapshot::from_bytes(&file, &cartridge) {
            Err(GbaError::StateCorrupt(reason)) => reason == "a field is out of range",
            _ => false,
        }
    };
    assert!(!refused(&|_| {}));
    assert!(refused(&|parts| parts.0 .0 .1 = 0), "no mode");
    assert!(refused(&|parts| parts.1 .0 .0.truncate(1)), "a short BIOS");
    assert!(refused(&|parts| parts.1 .1 .0 = 3), "no such backup memory");
    assert!(refused(&|parts| parts.1 .1 .0 = 1), "a flash chip without its fields");
    assert!(refused(&|parts| parts.1 .2 .3 .3 .3 = 1024), "more than a timer tick");
    assert!(refused(&|parts| parts.1 .2 .5 .8 = 8), "no such sequencer step");
    assert!(refused(&|parts| parts.1 .3 .2.push(0)), "a long OAM");
    assert!(refused(&|parts| parts.1 .4 .2 = 5), "no such save type");
    assert!(refused(&|parts| parts.1 .5 .3 .0 = (2, None, None)), "a phase without fields");
    assert!(refused(&|parts| parts.1 .6 .0[15].0 = 0), "a free access");
    assert!(refused(&|parts| parts.2 .1 = 228), "no such line");
}

#[test]
fn the_rom_is_the_cartridges_and_the_rest_is_the_files() {
    let (cartridge, gba) = running(b"");
    let mut parts = take_apart(&gba);
    parts.1 .4 .1 .0 = "OTHER".to_string();
    let mut file = gba.snapshot().to_bytes()[..18].to_vec();
    file.extend(postcard::to_allocvec(&parts).unwrap());
    let read = Snapshot::from_bytes(&file, &cartridge).unwrap();
    assert_eq!(read.title(), "OTHER");
    assert!(std::ptr::eq(read.gba.bus.cartridge.rom(), cartridge.rom()));
}

#[test]
fn undecodable_payloads_name_the_reason() {
    let (cartridge, gba) = running(b"");
    let bytes = gba.snapshot().to_bytes();
    assert!(matches!(
        Snapshot::from_bytes(&bytes[..18], &cartridge),
        Err(GbaError::StateCorrupt(reason)) if reason == "Hit the end of buffer, expected more data"
    ));
    assert!(matches!(
        Snapshot::from_bytes(&bytes[..17], &cartridge),
        Err(GbaError::StateFormat)
    ));
}

#[test]
fn a_program_that_writes_to_its_rom_changes_nothing() {
    let mut rom = vec![0u8; 0x200];
    let code: [u32; 4] = [
        0xE3A0_0302, // mov r0, #0x08000000
        0xE3E0_1000, // mvn r1, #0
        0xE480_1004, // str r1, [r0], #4
        0xEAFF_FFFD, // b back to the store
    ];
    for (i, word) in code.iter().enumerate() {
        rom[i * 4..i * 4 + 4].copy_from_slice(&word.to_le_bytes());
    }
    let mut gba = Gba::new(Cartridge::from_bytes(rom.clone()).unwrap());
    gba.run_frame();
    gba.run_frame();
    assert_eq!(gba.bus.cartridge.rom(), &rom[..]);
    assert_eq!(gba.bus.read32(base::ROM_WS0), code[0]);
}

#[test]
fn only_version_1_is_read() {
    let (cartridge, gba) = running(b"");
    let mut bytes = gba.snapshot().to_bytes();
    assert!(Snapshot::from_bytes(&bytes, &cartridge).is_ok());
    for version in [0u16, 2, 0x0100, 0xFFFF] {
        bytes[8..10].copy_from_slice(&version.to_le_bytes());
        match Snapshot::from_bytes(&bytes, &cartridge) {
            Err(GbaError::StateVersion { found, expected }) => {
                assert_eq!((found, expected), (version, 1));
            }
            other => panic!("{other:?}"),
        }
    }
    // The version comes before the cartridge, and the cartridge before the rest.
    bytes[10] ^= 1;
    assert!(matches!(
        Snapshot::from_bytes(&bytes, &cartridge),
        Err(GbaError::StateVersion { .. })
    ));
    bytes[8..10].copy_from_slice(&1u16.to_le_bytes());
    assert!(matches!(
        Snapshot::from_bytes(&bytes[..18], &cartridge),
        Err(GbaError::StateCartridge)
    ));
}
