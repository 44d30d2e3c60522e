use tuiba_core::apu::fifo::Fifo;
use tuiba_core::gba::Gba;
use tuiba_core::memory::backup::{Backup, Flash, SaveType};
use tuiba_core::memory::cartridge::{Header, HEADER_END};
use tuiba_core::memory::dma::{run, Dma, Timing};
use tuiba_core::memory::eeprom::Eeprom;
use tuiba_core::memory::interrupt::Interrupt;
use tuiba_core::memory::io::IoRegisters;
use tuiba_core::memory::timers::Timers;
use tuiba_core::memory::{base, reg, Bus, Cartridge, Memory, MemoryRegion};

fn bus() -> Bus {
    let mut rom = vec![0; 0x400];
    rom[0x200] = 0x5A;
    Bus::new(Cartridge::from_bytes(rom).unwrap())
}

#[test]
fn what_is_written_to_ram_is_read_at_every_mirror() {
    let cases = [
        (base::EWRAM + 0x40, base::EWRAM + 0x4_0040),
        (base::IWRAM + 0x40, base::IWRAM + 0x00FF_8040),
        (base::PALETTE + 0x40, base::PALETTE + 0x440),
        (base::VRAM + 0x1_0040, base::VRAM + 0x1_8040),
        (base::OAM + 0x40, base::OAM + 0xC40),
    ];
    for (address, mirror) in cases {
        let mut bus = bus();
        bus.write32(address, 0x1234_5678);
        assert_eq!(bus.read32(mirror), 0x1234_5678, "word at {mirror:#x}");
        bus.write16(address + 2, 0xABCD);
        assert_eq!(bus.read16(mirror + 2), 0xABCD, "halfword at {mirror:#x}");
        assert_eq!(bus.read32(address), 0xABCD_5678);
    }
    let mut bus = bus();
    bus.write8(base::EWRAM + 1, 0x77);
    assert_eq!(bus.read8(base::EWRAM + 0x4_0001), 0x77);
}

#[test]
fn nothing_writes_to_rom_or_bios() {
    let mut bus = bus();
    for address in [base::BIOS, base::ROM_WS0 + 0x200, base::ROM_WS1 + 0x200] {
        bus.write8(address, 0xFF);
        bus.write16(address, 0xFFFF);
        bus.write32(address, 0xFFFF_FFFF);
    }
    assert_eq!(bus.read8(base::BIOS), 0);
    assert_eq!(bus.read8(base::ROM_WS0 + 0x200), 0x5A);
    assert_eq!(bus.read8(base::ROM_WS2 + 0x200), 0x5A);
}

#[test]
fn every_access_takes_time() {
    let mut bus = bus();
    for page in 0..16u32 {
        bus.take_access_cycles();
        bus.read8(page << 24);
        assert!(bus.take_access_cycles() >= 1, "page {page}");
        bus.write32(page << 24, 0);
        assert!(bus.take_access_cycles() >= 1, "page {page}");
    }
}

#[test]
fn interrupt_flags_are_raised_and_cleared_bit_by_bit() {
    let mut io = IoRegisters::new();
    io.request_interrupt(Interrupt::Dma3);
    io.request_interrupt(Interrupt::VBlank);
    assert_eq!(io.read16(reg::IF), (1 << 11) | 1);
    io.write16(reg::IF, 1);
    assert_eq!(io.read16(reg::IF), 1 << 11);
    assert_eq!(Interrupt::GamePak.mask(), 1 << 13);
}

#[test]
fn timers_do_not_care_how_time_is_cut() {
    for (a, b) in [(1u32, 1u32), (1000, 3), (65536, 65535), (12_345, 98_765)] {
        let mut timers = Timers::new();
        timers.set_reload(0, 0xFFF3);
        timers.set_control(0, 0x80);
        timers.set_reload(1, 0xFFFE);
        timers.set_control(1, 0x80 | 0x04);
        timers.set_reload(2, 0x8000);
        timers.set_control(2, 0x80 | 2);
        timers.set_reload(3, 0xFFFF);
        timers.set_control(3, 0x80 | 0x04);
        let mut cut = timers;
        let together = timers.advance(a + b);
        let first = cut.advance(a);
        let second = cut.advance(b);
        for n in 0..4 {
            assert_eq!(timers.counter(n), cut.counter(n), "timer {n}");
            assert_eq!(together[n], first[n] + second[n], "overflows of timer {n}");
        }
    }
}

fn send(eeprom: &mut Eeprom, value: u64, bits: u32) {
    for i in (0..bits).rev() {
        eeprom.write((value >> i & 1) as u16);
    }
}

#[test]
fn eeprom_blocks_keep_what_was_written() {
    for (units, bits, blocks) in [(9u32, 6u32, 64u64), (17, 14, 1024)] {
        let mut eeprom = Eeprom::new();
        eeprom.hint_transfer_len(units);
        for block in [0, 1, blocks - 1] {
            let data = 0x0123_4567_89AB_CDEF ^ block;
            send(&mut eeprom, 0b10, 2);
            send(&mut eeprom, block, bits);
            send(&mut eeprom, data, 64);
            send(&mut eeprom, 0, 1);
            send(&mut eeprom, 0b11, 2);
            send(&mut eeprom, block, bits);
            send(&mut eeprom, 0, 1);
            for _ in 0..4 {
                assert_eq!(eeprom.read(), 0);
            }
            let read = (0..64).fold(0u64, |acc, _| (acc << 1) | u64::from(eeprom.read()));
            assert_eq!(read, data);
            assert_eq!(eeprom.read(), 1, "ready again");
        }
    }
}

#[test]
fn flash_erases_to_ones_and_programs_to_zeros() {
    let mut flash = Flash::new(0x1_0000);
    let unlock = |flash: &mut Flash, command: u8| {
        flash.write(0x5555, 0xAA);
        flash.write(0x2AAA, 0x55);
        flash.write(0x5555, command);
    };
    unlock(&mut flash, 0xA0);
    flash.write(0x42, 0b1100_1010);
    unlock(&mut flash, 0xA0);
    flash.write(0x42, 0b1010_1100);
    assert_eq!(flash.read(0x42), 0b1000_1000);
    unlock(&mut flash, 0x80);
    unlock(&mut flash, 0x10);
    assert_eq!(flash.read(0x42), 0xFF);
    unlock(&mut flash, 0xA0);
    flash.write(0x42, 0x5A);
    assert_eq!(flash.read(0x42), 0x5A);
}

#[test]
fn save_data_round_trips_for_every_chip() {
    let types = [
        SaveType::Unknown,
        SaveType::Sram,
        SaveType::Flash64K,
        SaveType::Flash128K,
        SaveType::Eeprom,
    ];
    for save_type in types {
        let mut backup = Backup::for_type(save_type);
        let contents: Vec<u8> = (0..backup.data().len()).map(|i| (i * 7) as u8).collect();
        backup.load(&contents);
        assert_eq!(backup.data(), &contents[..], "{save_type:?}");
        let mut other = Backup::for_type(save_type);
        other.load(backup.data());
        assert_eq!(other.data(), backup.data(), "{save_type:?}");
    }
}

#[test]
fn a_finished_dma_disarms_and_a_repeating_one_does_not() {
    let mut bus = bus();
    for (control, armed) in [(0x8000u16, false), (0x8000 | 0x0200 | (1 << 12), true)] {
        let mut dma = Dma::new();
        dma.channels[0].source = base::EWRAM;
        dma.channels[0].dest = base::IWRAM;
        dma.channels[0].count = 2;
        dma.write_control(0, control);
        dma.trigger(Timing::VBlank);
        run(&mut dma, 0, &mut bus);
        assert_eq!(dma.channels[0].enabled(), armed);
    }
}

#[test]
fn fifo_samples_keep_their_order_through_refills() {
    let mut fifo = Fifo::new();
    let mut heard = Vec::new();
    for round in 0..10u8 {
        fifo.push(&[round * 4, round * 4 + 1, round * 4 + 2, round * 4 + 3]);
        for _ in 0..4 {
            fifo.pop();
            heard.push(fifo.sample());
        }
    }
    assert_eq!(heard, (0..40).collect::<Vec<i8>>());
    fifo.pop();
    assert_eq!(fifo.sample(), 39);
}

#[test]
fn a_header_is_read_from_the_start_of_a_file() {
    let mut rom = vec![0u8; 0x400];
    rom[0xA0..0xA8].copy_from_slice(b"STARTING");
    rom[0xAC..0xB0].copy_from_slice(b"ABCD");
    rom[0xB0..0xB2].copy_from_slice(b"01");
    let whole = Cartridge::from_bytes(rom.clone()).unwrap();
    let prefix = Header::from_prefix(&rom[..HEADER_END]).unwrap();
    assert_eq!(whole.header(), &prefix);
    assert_eq!(prefix.title, "STARTING");
    assert_eq!(prefix.game_code, "ABCD");
    assert!(Header::from_prefix(&rom[..HEADER_END - 1]).is_none());
}

#[test]
fn keys_are_read_as_they_were_set() {
    let mut gba = Gba::new(Cartridge::from_bytes(vec![0; 0xC0]).unwrap());
    gba.set_keyinput(0x02F7);
    assert_eq!(gba.bus.read16(base::IO + reg::KEYINPUT), 0x02F7);
    gba.bus.write16(base::IO + reg::KEYINPUT, 0);
    assert_eq!(gba.bus.read16(base::IO + reg::KEYINPUT), 0x02F7);
}

#[test]
fn only_page_0e_is_sram() {
    assert_eq!(
        MemoryRegion::from_address(0x0EFF_FFFF),
        Some(MemoryRegion::Sram)
    );
    assert_eq!(MemoryRegion::from_address(0x0F00_0000), None);
    let mut bus = bus();
    bus.write8(base::SRAM, 0x5A);
    bus.write8(0x0F00_0000, 0x11);
    assert_eq!(bus.read8(base::SRAM), 0x5A, "not a mirror");
    assert_eq!(bus.read8(0x0F00_0000), 0);
    assert_eq!(bus.read32(0x0F00_0000), 0);
}

#[test]
fn eeprom_answers_for_any_block_and_either_stop_bit() {
    let contents: Vec<u8> = (0..0x200).map(|i| (i * 13 + 5) as u8).collect();
    for stop in [0, 1] {
        let mut eeprom = Eeprom::new();
        eeprom.load(&contents);
        for block in 0..64usize {
            send(&mut eeprom, 0b11, 2);
            send(&mut eeprom, block as u64, 6);
            send(&mut eeprom, stop, 1);
            for _ in 0..4 {
                assert_eq!(eeprom.read(), 0);
            }
            let read = (0..64).fold(0u64, |acc, _| (acc << 1) | u64::from(eeprom.read()));
            assert_eq!(read.to_be_bytes(), contents[8 * block..8 * block + 8]);
            assert_eq!((eeprom.read(), eeprom.read()), (1, 1));
        }
        assert_eq!(eeprom.data(), &contents[..], "reading changes nothing");
    }
}
