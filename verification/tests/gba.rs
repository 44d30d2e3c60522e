use tuiba_core::bios;
use tuiba_core::cpu::Mode;
use tuiba_core::gba::Gba;
use tuiba_core::memory::{Cartridge, Memory, base, reg};
use tuiba_core::memory::cartridge::HEADER_END;
use tuiba_core::memory::interrupt::Interrupt;
use tuiba_core::ppu::{CYCLES_PER_FRAME, CYCLES_PER_LINE};
use tuiba_core::ppu::framebuffer::SCREEN_WIDTH;

/// Builds a minimal ROM with a valid header and the given title.
fn rom_with_header(title: &str, len: usize) -> Vec<u8> {
    let mut rom = vec![0u8; len.max(HEADER_END)];
    rom[0xA0..0xA0 + title.len()].copy_from_slice(title.as_bytes());
    rom[0xAC..0xB0].copy_from_slice(b"TEST");
    rom[0xB0..0xB2].copy_from_slice(b"00");
    rom[0xB2] = 0x96;
    rom[0xBC] = 1;
    let checksum = rom[0xA0..=0xBC]
        .iter()
        .fold(0u8, |acc, &b| acc.wrapping_sub(b))
        .wrapping_sub(0x19);
    rom[0xBD] = checksum;
    rom
}

/// A cartridge whose entry point runs `code` (ARM).
fn gba_with(code: &[u32]) -> Gba {
    let mut rom = rom_with_header("TEST", 0x1000);
    for (i, word) in code.iter().enumerate() {
        rom[i * 4..i * 4 + 4].copy_from_slice(&word.to_le_bytes());
    }
    Gba::new(Cartridge::from_bytes(rom).unwrap())
}

#[test]
fn boots_at_cartridge_entry_and_runs_a_frame() {
    // mov r0, #0x04000000 ; mov r1, #0x400 ; orr r1, r1, #3 ; strh r1, [r0] ; b .
    let mut gba = gba_with(&[
        0xE3A0_0301,
        0xE3A0_1B01,
        0xE381_1003,
        0xE1C0_10B0,
        0xEAFF_FFFE,
    ]);
    assert_eq!(gba.cpu.next_pc(), base::ROM_WS0);
    gba.run_frame();
    assert_eq!(gba.bus.io.read16(reg::DISPCNT), 0x0403);
    // A frame ends when VBlank starts, i.e. after the 160 visible lines.
    assert!(gba.cpu.cycles >= u64::from(160 * CYCLES_PER_LINE - CYCLES_PER_LINE));
    assert!(gba.cpu.cycles < u64::from(CYCLES_PER_FRAME));
    assert_eq!(gba.ppu.vcount(), 160);
}

#[test]
fn mode3_pixel_reaches_framebuffer() {
    // mov r0, #0x04000000 ; mov r1, #0x400 ; orr r1, r1, #3 ; strh r1, [r0]
    // mov r2, #0x06000000 ; mov r3, #0x1F ; strh r3, [r2, #4] ; b .
    let mut gba = gba_with(&[
        0xE3A0_0301,
        0xE3A0_1B01,
        0xE381_1003,
        0xE1C0_10B0,
        0xE3A0_2406,
        0xE3A0_301F,
        0xE1C2_30B4,
        0xEAFF_FFFE,
    ]);
    gba.run_frame();
    assert_eq!(gba.framebuffer().row(0)[2], 0xFF00_00FF);
    assert_eq!(gba.framebuffer().pixels().len(), SCREEN_WIDTH * 160);
}

#[test]
fn vblank_irq_is_delivered_and_intr_wait_resumes() {
    let mut gba = gba_with(&[
        0xE3A0_0301, // mov r0, #0x04000000
        0xE3A0_1008, // mov r1, #8            ; DISPSTAT: VBlank IRQ enable
        0xE1C0_10B4, // strh r1, [r0, #4]
        0xE280_4C02, // add r4, r0, #0x200
        0xE3A0_1001, // mov r1, #1
        0xE1C4_10B0, // strh r1, [r4]         ; IE = VBlank
        0xE1C4_10B8, // strh r1, [r4, #8]     ; IME = 1
        0xE3A0_2403, // mov r2, #0x03000000
        0xE382_2C7F, // orr r2, r2, #0x7F00
        0xE59F_100C, // ldr r1, =handler      ; literal at 0x38
        0xE582_10FC, // str r1, [r2, #0xFC]   ; 0x03007FFC = handler
        0xEF05_0000, // loop: swi VBlankIntrWait
        0xE3A0_3001, // mov r3, #1            ; marks a wakeup
        0xEAFF_FFFC, // b loop
        0x0800_0044, // =handler
        0,
        0,
        // handler @ 0x44: the game's IRQ routine, entered by the stub.
        0xE3A0_0301, // mov r0, #0x04000000
        0xE280_0C02, // add r0, r0, #0x200
        0xE3A0_1001, // mov r1, #1
        0xE1C0_10B2, // strh r1, [r0, #2]     ; IF = VBlank (ack)
        0xE3A0_2403, // mov r2, #0x03000000
        0xE382_2C7F, // orr r2, r2, #0x7F00
        0xE1C2_1FB8, // strh r1, [r2, #0xF8]  ; INTR_CHECK_FLAGS |= VBlank
        0xE12F_FF1E, // bx lr                 ; back into the stub
    ]);

    gba.run_frame();
    // The frame ends as VBlank fires, so the CPU is already in the stub.
    assert!(gba.intr_wait.is_some(), "still inside VBlankIntrWait");
    assert_eq!(gba.cpu.regs.mode(), Mode::Irq);
    assert_eq!(gba.cpu.regs.get(3), 0);

    // Let the stub and handler run and return: the wait completes once.
    for _ in 0..64 {
        gba.step();
    }
    assert_eq!(gba.cpu.regs.get(3), 1, "woken once");
    assert_eq!(
        gba.bus.io.read16(reg::IF) & Interrupt::VBlank.mask(),
        0,
        "acknowledged"
    );
    assert_eq!(
        gba.cpu.regs.mode(),
        Mode::System,
        "stub restored the mode"
    );
    assert!(gba.cpu.irq_enabled(), "handler returned and restored CPSR");
    assert!(gba.cpu.halted, "back in VBlankIntrWait");
    assert_eq!(gba.bus.read16(bios::INTR_CHECK_FLAGS), 0, "flag consumed");
    assert_eq!(gba.cpu.regs.get(13), 0x0300_7F00, "user stack balanced");
}

#[test]
fn halt_wakes_on_enabled_interrupt() {
    // Enable the HBlank IRQ in IE but leave IME off; halt via HALTCNT.
    let mut gba = gba_with(&[
        0xE3A0_0301, // mov r0, #0x04000000
        0xE3A0_1010, // mov r1, #0x10         ; DISPSTAT: HBlank IRQ enable
        0xE1C0_10B4, // strh r1, [r0, #4]
        0xE280_4C02, // add r4, r0, #0x200
        0xE3A0_1002, // mov r1, #2
        0xE1C4_10B0, // strh r1, [r4]         ; IE = HBlank
        0xE3A0_1000, // mov r1, #0
        0xE5C0_1301, // strb r1, [r0, #0x301] ; HALTCNT
        0xE3A0_3001, // mov r3, #1
        0xEAFF_FFFE, // b .
    ]);
    for _ in 0..8 {
        gba.step();
    }
    assert!(gba.cpu.halted);
    assert_eq!(gba.cpu.regs.get(3), 0);
    while gba.cpu.halted {
        gba.step();
    }
    assert!(gba.cpu.cycles < 2000, "woke at the first HBlank");
    gba.step();
    assert_eq!(gba.cpu.regs.get(3), 1, "resumed after the halt");
}

#[test]
fn immediate_dma_copies_rom_to_vram() {
    // DMA3: copy 4 halfwords from ROM+0x100 to VRAM.
    let mut gba = gba_with(&[
        0xE3A0_0301, // mov r0, #0x04000000
        0xE280_00D4, // add r0, r0, #0xD4    ; DMA3SAD
        0xE59F_1014, // ldr r1, =0x08000100
        0xE580_1000, // str r1, [r0]
        0xE3A0_1406, // mov r1, #0x06000000
        0xE580_1004, // str r1, [r0, #4]     ; DMA3DAD
        0xE59F_1008, // ldr r1, =0x80000004  ; enable, 4 halfwords
        0xE580_1008, // str r1, [r0, #8]     ; DMA3CNT
        0xEAFF_FFFE, // b .
        0x0800_0100,
        0x8000_0004,
    ]);
    gba.bus.cartridge = {
        let mut rom = gba.bus.cartridge.rom().to_vec();
        rom[0x100..0x108].copy_from_slice(&[1, 0, 2, 0, 3, 0, 4, 0]);
        Cartridge::from_bytes(rom).unwrap()
    };
    for _ in 0..10 {
        gba.step();
    }
    assert_eq!(gba.bus.read16(base::VRAM), 1);
    assert_eq!(gba.bus.read16(base::VRAM + 6), 4);
    assert_eq!(gba.bus.io.read16(reg::DMA3CNT_H) & 0x8000, 0, "done");
}

#[test]
fn eeprom_is_driven_by_dma3() {
    let mut rom = rom_with_header("TEST", 0x1000);
    rom[..4].copy_from_slice(&0xEAFF_FFFE_u32.to_le_bytes()); // b .
    rom[0x200..0x209].copy_from_slice(b"EEPROM_V1");
    let mut gba = Gba::new(Cartridge::from_bytes(rom).unwrap());
    let dma3 = |gba: &mut Gba, src: u32, dst: u32, units: u32| {
        gba.bus.io.write32(reg::DMA0SAD + 12 * 3, src);
        gba.bus.io.write32(reg::DMA0SAD + 12 * 3 + 4, dst);
        gba.bus
            .io
            .write32(reg::DMA0SAD + 12 * 3 + 8, 0x8000_0000 | units);
        gba.step();
    };
    let buffer = base::EWRAM;
    let put_bits = |gba: &mut Gba, bits: &[u16]| {
        for (i, &bit) in bits.iter().enumerate() {
            gba.bus.write16(buffer + i as u32 * 2, bit);
        }
    };

    // Write request for a 512 B chip: `10`, 6-bit address 5, 64 data
    // bits (0x80...01), stop bit — 73 halfwords, which fixes the size.
    let mut request = vec![1, 0, 0, 0, 0, 1, 0, 1];
    request.extend((0..64).map(|i| u16::from(i == 0 || i == 63)));
    request.push(0);
    put_bits(&mut gba, &request);
    dma3(&mut gba, buffer, 0x0D00_0000, 73);
    assert_eq!(gba.save_data().len(), 0x200, "size learnt from the DMA");
    assert_eq!(&gba.save_data()[5 * 8..6 * 8], &[0x80, 0, 0, 0, 0, 0, 0, 1]);

    // Read request: `11`, address 5, stop bit — 9 halfwords — then fetch
    // the 68-bit reply.
    put_bits(&mut gba, &[1, 1, 0, 0, 0, 1, 0, 1, 0]);
    dma3(&mut gba, buffer, 0x0D00_0000, 9);
    dma3(&mut gba, 0x0D00_0000, buffer, 68);
    let reply: Vec<u16> = (0..68)
        .map(|i| gba.bus.read16(buffer + i * 2) & 1)
        .collect();
    let mut expected = vec![0; 4];
    expected.extend((0..64).map(|i| u16::from(i == 0 || i == 63)));
    assert_eq!(reply, expected);
    assert_eq!(gba.bus.read16(0x0D00_0000), 1, "ready again");

    // Loading a save restores the chip.
    let mut other = Gba::new(Cartridge::from_bytes(gba.bus.cartridge.rom().to_vec()).unwrap());
    other.load_save_data(gba.save_data());
    assert_eq!(other.save_data(), gba.save_data());
}

#[test]
fn timer_overflow_raises_interrupt() {
    let mut gba = gba_with(&[0xEAFF_FFFE]); // b .
    gba.bus.io.write16(reg::TM0CNT_L, 0xFFF0);
    gba.bus.io.write16(reg::TM0CNT_H, 0x80 | 0x40);
    gba.bus.io.write16(reg::IE, 1 << 3);
    for _ in 0..8 {
        gba.step();
    }
    assert_ne!(gba.bus.io.read16(reg::IF) & (1 << 3), 0);
}

#[test]
fn unsupported_swi_is_reported() {
    let mut gba = gba_with(&[0xEF2A_0000, 0xEAFF_FFFE]);
    gba.step();
    assert_eq!(gba.last_unsupported_swi, Some(0x2A));
}
