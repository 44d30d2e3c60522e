use tuiba_core::memory::video::VideoMemory;
use tuiba_core::ppu::bitmap::{FRAME1_OFFSET, render_mode3, render_mode4, render_mode5};
use tuiba_core::ppu::framebuffer::SCREEN_WIDTH;
use tuiba_core::ppu::tiled::TRANSPARENT;

fn video() -> VideoMemory {
    let mut v = VideoMemory::new();
    v.palette[2..4].copy_from_slice(&0x03E0u16.to_le_bytes()); // index 1 green
    v
}

#[test]
fn mode3_reads_16bit_pixels() {
    let mut v = video();
    let i = (5 * SCREEN_WIDTH + 7) * 2;
    v.vram[i..i + 2].copy_from_slice(&0x801Fu16.to_le_bytes());
    let mut row = [0; SCREEN_WIDTH];
    render_mode3(&v, 5, &mut row);
    assert_eq!(row[7], 0x001F, "bit 15 stripped");
    assert_eq!(row[8], 0x0000, "black, not transparent");
}

#[test]
fn mode4_uses_palette_and_frames() {
    let mut v = video();
    v.vram[3 * SCREEN_WIDTH + 1] = 1;
    v.vram[FRAME1_OFFSET + 3 * SCREEN_WIDTH + 2] = 1;
    let mut row = [0; SCREEN_WIDTH];
    render_mode4(&v, false, 3, &mut row);
    assert_eq!(row[1], 0x03E0);
    assert_eq!(row[2], TRANSPARENT);
    render_mode4(&v, true, 3, &mut row);
    assert_eq!(row[1], TRANSPARENT);
    assert_eq!(row[2], 0x03E0);
}

#[test]
fn mode5_is_transparent_outside_bitmap() {
    let mut v = video();
    v.vram[0..2].copy_from_slice(&0x7FFFu16.to_le_bytes());
    let mut row = [0; SCREEN_WIDTH];
    render_mode5(&v, false, 0, &mut row);
    assert_eq!(row[0], 0x7FFF);
    assert_eq!(row[159], 0);
    assert_eq!(row[160], TRANSPARENT);
    render_mode5(&v, false, 128, &mut row);
    assert_eq!(row[0], TRANSPARENT);
}
