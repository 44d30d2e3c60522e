use tuiba_core::memory::io::IoRegisters;
use tuiba_core::memory::reg;
use tuiba_core::memory::video::VideoMemory;
use tuiba_core::ppu::tiled::{mosaic_snap, render_text};
use tuiba_core::ppu::{Ppu, CYCLES_PER_FRAME, CYCLES_PER_LINE};

#[test]
fn the_ppu_does_not_care_how_time_is_cut() {
    let mut video = VideoMemory::new();
    for (i, byte) in video.vram.iter_mut().enumerate() {
        *byte = (i * 31) as u8;
    }
    let mut io = IoRegisters::new();
    io.write16(reg::DISPCNT, 0x0403);
    io.write16(reg::DISPSTAT, 0x0538);
    let (mut whole, mut whole_io) = (Ppu::new(), io.clone());
    let (mut cut, mut cut_io) = (Ppu::new(), io);
    let total = CYCLES_PER_LINE * 170 + 17;
    let together = whole.step(total, &mut whole_io, &video);
    let mut left = total;
    let mut seen = (false, false);
    while left > 0 {
        let part = left.min(977);
        let events = cut.step(part, &mut cut_io, &video);
        seen = (seen.0 || events.vblank, seen.1 || events.hblank);
        left -= part;
    }
    assert_eq!(whole.vcount(), cut.vcount());
    assert_eq!(whole.framebuffer.pixels(), cut.framebuffer.pixels());
    assert_eq!(seen, (together.vblank, together.hblank));
    for offset in [reg::DISPSTAT, reg::VCOUNT, reg::IF] {
        assert_eq!(whole_io.read16(offset), cut_io.read16(offset));
    }
}

#[test]
fn a_frame_takes_its_cycles_from_anywhere() {
    for start in [0, 5, 1231, CYCLES_PER_LINE * 159 + 1231, CYCLES_PER_LINE * 200] {
        let (mut ppu, mut io, video) = (Ppu::new(), IoRegisters::new(), VideoMemory::new());
        ppu.step(start, &mut io, &video);
        let line = ppu.vcount();
        assert!(ppu.step(CYCLES_PER_FRAME, &mut io, &video).vblank);
        assert_eq!(ppu.vcount(), line);
    }
}

#[test]
fn vblank_is_reported_on_the_very_cycle() {
    let (mut ppu, mut io, video) = (Ppu::new(), IoRegisters::new(), VideoMemory::new());
    assert!(!ppu.step(CYCLES_PER_LINE * 160 - 1, &mut io, &video).vblank);
    assert!(ppu.step(1, &mut io, &video).vblank);
    assert_eq!(ppu.vcount(), 160);
}

#[test]
fn snapping_twice_is_snapping_once() {
    for size in 1..=16 {
        for x in 0..240 {
            let edge = mosaic_snap(x, size);
            assert!(edge <= x && x < edge + size);
            assert_eq!(mosaic_snap(edge, size), edge);
        }
    }
}

#[test]
fn vcount_follows_the_line() {
    let (mut ppu, mut io, video) = (Ppu::new(), IoRegisters::new(), VideoMemory::new());
    io.write16(reg::DISPSTAT, 0x0538);
    for cycles in [1, 960, 1231, 5000, CYCLES_PER_FRAME + 7, 123_456] {
        ppu.step(cycles, &mut io, &video);
        assert_eq!(io.read16(reg::VCOUNT), ppu.vcount());
        assert!(ppu.vcount() < 228);
    }
}

#[test]
fn scrolling_by_one_shifts_the_line_by_one() {
    let mut video = VideoMemory::new();
    for (i, byte) in video.vram.iter_mut().enumerate() {
        *byte = (i * 7 + i / 256) as u8;
    }
    for (i, byte) in video.palette.iter_mut().enumerate() {
        *byte = (i * 5) as u8;
    }
    for size in 0..4u16 {
        for scroll in [0u16, 7, 250, 510, 511] {
            let mut io = IoRegisters::new();
            io.write16(reg::BG1CNT, (size << 14) | (1 << 8) | (1 << 7));
            io.write16(reg::BG1HOFS, scroll);
            let (mut before, mut after) = ([0; 240], [0; 240]);
            render_text(&io, &video, 1, 9, &mut before);
            io.write16(reg::BG1HOFS, (scroll + 1) & 0x1FF);
            render_text(&io, &video, 1, 9, &mut after);
            assert_eq!(before[1..], after[..239], "size {size}, scroll {scroll}");
        }
    }
}
