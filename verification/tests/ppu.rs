use tuiba_core::memory::reg;
use tuiba_core::memory::interrupt::Interrupt;
use tuiba_core::memory::io::IoRegisters;
use tuiba_core::memory::video::VideoMemory;
use tuiba_core::ppu::{CYCLES_PER_FRAME, CYCLES_PER_LINE, Events, HBLANK_START, LINES_PER_FRAME, Ppu, dispstat};
use tuiba_core::ppu::framebuffer::{bgr555_to_rgba, SCREEN_WIDTH};

fn setup() -> (Ppu, IoRegisters, VideoMemory) {
    (Ppu::new(), IoRegisters::new(), VideoMemory::new())
}

#[test]
fn hblank_and_line_advance() {
    let (mut ppu, mut io, video) = setup();
    assert_eq!(
        ppu.step(HBLANK_START - 1, &mut io, &video),
        Events::default()
    );
    assert_eq!(io.read16(reg::DISPSTAT) & dispstat::HBLANK, 0);
    assert!(ppu.step(1, &mut io, &video).hblank);
    assert_ne!(io.read16(reg::DISPSTAT) & dispstat::HBLANK, 0);
    assert_eq!(ppu.vcount(), 0);
    ppu.step(CYCLES_PER_LINE - HBLANK_START, &mut io, &video);
    assert_eq!(ppu.vcount(), 1);
    assert_eq!(io.read16(reg::VCOUNT), 1);
    assert_eq!(io.read16(reg::DISPSTAT) & dispstat::HBLANK, 0);
}

#[test]
fn vblank_spans_lines_160_to_226() {
    let (mut ppu, mut io, video) = setup();
    let mut frames = 0;
    for line in 0..LINES_PER_FRAME {
        let events = ppu.step(CYCLES_PER_LINE, &mut io, &video);
        frames += u32::from(events.vblank);
        let next = (line + 1) % LINES_PER_FRAME;
        assert_eq!(events.vblank, next == 160, "line {next}");
        assert_eq!(events.hblank, line < 160, "hblank event on line {line}");
        let vblank = io.read16(reg::DISPSTAT) & dispstat::VBLANK != 0;
        assert_eq!(
            vblank,
            (160..227).contains(&next),
            "vblank flag on line {next}"
        );
    }
    assert_eq!(frames, 1);
    assert_eq!(ppu.vcount(), 0);
}

#[test]
fn interrupts_follow_dispstat_enables() {
    let (mut ppu, mut io, video) = setup();
    io.write16(
        reg::DISPSTAT,
        dispstat::VBLANK_IRQ | dispstat::HBLANK_IRQ | dispstat::VCOUNT_IRQ | (5 << 8),
    );
    ppu.step(HBLANK_START, &mut io, &video);
    assert_eq!(io.read16(reg::IF), Interrupt::HBlank.mask());
    io.write16(reg::IF, 0xFFFF);
    ppu.step(CYCLES_PER_LINE * 5, &mut io, &video);
    assert_eq!(ppu.vcount(), 5);
    assert_ne!(io.read16(reg::IF) & Interrupt::VCount.mask(), 0);
    assert_ne!(io.read16(reg::DISPSTAT) & dispstat::VCOUNT_MATCH, 0);
    io.write16(reg::IF, 0xFFFF);
    ppu.step(CYCLES_PER_LINE * 155, &mut io, &video);
    assert_eq!(ppu.vcount(), 160);
    assert_ne!(io.read16(reg::IF) & Interrupt::VBlank.mask(), 0);
}

#[test]
fn set_line_updates_vcount_and_vblank_flag() {
    let (mut ppu, mut io, video) = setup();
    ppu.set_line(126, &mut io);
    assert_eq!(io.read16(reg::VCOUNT), 126);
    assert_eq!(io.read16(reg::DISPSTAT) & dispstat::VBLANK, 0);
    ppu.set_line(200, &mut io);
    assert_ne!(io.read16(reg::DISPSTAT) & dispstat::VBLANK, 0);
    ppu.set_line(126, &mut io);
    // 34 lines to VBlank from here.
    let events = ppu.step(CYCLES_PER_LINE * 34, &mut io, &video);
    assert!(events.vblank);
    assert_eq!(ppu.vcount(), 160);
}

#[test]
fn large_steps_catch_up_multiple_lines() {
    let (mut ppu, mut io, video) = setup();
    assert!(ppu.step(CYCLES_PER_FRAME, &mut io, &video).vblank);
    assert_eq!(ppu.vcount(), 0);
}

#[test]
fn renders_mode3_line_at_hblank() {
    let (mut ppu, mut io, mut video) = setup();
    io.write16(reg::DISPCNT, 0x0403); // mode 3, BG2 on
    video.vram[0..2].copy_from_slice(&0x001Fu16.to_le_bytes());
    ppu.step(HBLANK_START - 1, &mut io, &video);
    assert_eq!(ppu.framebuffer.row(0)[0], 0x0000_00FF, "not rendered yet");
    ppu.step(1, &mut io, &video);
    assert_eq!(ppu.framebuffer.row(0)[0], 0xFF00_00FF);
}

#[test]
fn background_mosaic_snaps_to_blocks() {
    let (mut ppu, mut io, mut video) = setup();
    // Mode 3 with BG2 mosaic; 4×3 blocks.
    io.write16(reg::DISPCNT, 0x0403);
    io.write16(reg::BG2CNT, 1 << 6);
    io.write16(reg::MOSAIC, 0x23);
    // Pixel (x, y) = colour x + 32 * y, so each is unique.
    for y in 0..8 {
        for x in 0..16 {
            let c = (x + 32 * y) as u16;
            let o = (y * SCREEN_WIDTH + x) * 2;
            video.vram[o..o + 2].copy_from_slice(&c.to_le_bytes());
        }
    }
    ppu.step(CYCLES_PER_LINE * 5, &mut io, &video);
    let px = |x: usize, y: usize| ppu.framebuffer.row(y)[x] >> 8 & 0xFF;
    let expect = |x: usize, y: usize| bgr555_to_rgba((x + 32 * y) as u16) >> 8 & 0xFF;
    assert_eq!(px(0, 0), expect(0, 0));
    assert_eq!(px(3, 0), expect(0, 0), "x snaps to the block start");
    assert_eq!(px(4, 0), expect(4, 0));
    assert_eq!(px(5, 2), expect(4, 0), "y snaps to the block top");
    assert_eq!(px(9, 4), expect(8, 3));
}

#[test]
fn forced_blank_is_white_and_disabled_bg_shows_backdrop() {
    let (mut ppu, mut io, mut video) = setup();
    video.palette[0..2].copy_from_slice(&0x03E0u16.to_le_bytes());
    io.write16(reg::DISPCNT, 0x0083);
    ppu.step(HBLANK_START, &mut io, &video);
    assert_eq!(ppu.framebuffer.row(0)[100], 0xFFFF_FFFF);
    io.write16(reg::DISPCNT, 0x0003); // mode 3 but BG2 off
    ppu.step(CYCLES_PER_LINE, &mut io, &video);
    assert_eq!(ppu.framebuffer.row(1)[100], 0x00FF_00FF);
}
