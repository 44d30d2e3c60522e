use tuiba_core::memory::reg;
use tuiba_core::memory::io::IoRegisters;
use tuiba_core::memory::video::VideoMemory;
use tuiba_core::ppu::framebuffer::SCREEN_WIDTH;
use tuiba_core::ppu::tiled::{CHAR_BLOCK, Mosaic, SCREEN_BLOCK, TRANSPARENT, mosaic_h, mosaic_snap, render_affine, render_text};

/// Palette 1 colour 1 = red, 256-colour index 5 = green.
fn setup() -> (IoRegisters, VideoMemory) {
    let mut video = VideoMemory::new();
    video.palette[(16 + 1) * 2..(16 + 1) * 2 + 2].copy_from_slice(&0x001Fu16.to_le_bytes());
    video.palette[5 * 2..5 * 2 + 2].copy_from_slice(&0x03E0u16.to_le_bytes());
    (IoRegisters::new(), video)
}

#[test]
fn mosaic_register_and_horizontal_pass() {
    let (mut io, _) = setup();
    assert_eq!(
        Mosaic::read(&io),
        Mosaic {
            bg_h: 1,
            bg_v: 1,
            obj_h: 1,
            obj_v: 1
        }
    );
    io.write16(reg::MOSAIC, 0xF321);
    assert_eq!(
        Mosaic::read(&io),
        Mosaic {
            bg_h: 2,
            bg_v: 3,
            obj_h: 4,
            obj_v: 16
        }
    );
    assert_eq!(mosaic_snap(7, 3), 6);
    assert_eq!(mosaic_snap(7, 1), 7);

    let mut line: [u16; SCREEN_WIDTH] = std::array::from_fn(|x| x as u16);
    mosaic_h(&mut line, 1);
    assert_eq!(line[5], 5, "size 1 is a no-op");
    mosaic_h(&mut line, 7);
    assert_eq!(&line[..8], &[0, 0, 0, 0, 0, 0, 0, 7]);
    // 240 = 34 * 7 + 2: the last, partial block still snaps.
    assert_eq!(&line[238..], &[238, 238]);
}

#[test]
fn text_bg_4bpp_with_palette_and_flip() {
    let (mut io, mut video) = setup();
    // BG0: char base 0, screen base block 1, 4bpp, 256x256.
    io.write16(reg::BG0CNT, 1 << 8);
    // Tile 1: only its top-left pixel (x=0,y=0) is colour 1.
    video.vram[32] = 0x01;
    // Map entry (0,0) = tile 1, palette 1 ; entry (1,0) = tile 1 hflip.
    let map = SCREEN_BLOCK;
    video.vram[map..map + 2].copy_from_slice(&(1u16 | 1 << 12).to_le_bytes());
    video.vram[map + 2..map + 4].copy_from_slice(&(1u16 | 1 << 12 | 1 << 10).to_le_bytes());

    let mut line = [0; SCREEN_WIDTH];
    render_text(&io, &video, 0, 0, &mut line);
    assert_eq!(line[0], 0x001F);
    assert_eq!(line[1], TRANSPARENT);
    assert_eq!(
        line[15], 0x001F,
        "flipped tile puts the pixel at x=7 of tile 2"
    );
    assert_eq!(line[8], TRANSPARENT);

    render_text(&io, &video, 0, 1, &mut line);
    assert_eq!(line[0], TRANSPARENT, "row 1 of the tile is empty");
}

#[test]
fn text_bg_scrolls_and_wraps() {
    let (mut io, mut video) = setup();
    io.write16(reg::BG0CNT, 1 << 8);
    video.vram[32] = 0x01;
    let map = SCREEN_BLOCK;
    video.vram[map..map + 2].copy_from_slice(&(1u16 | 1 << 12).to_le_bytes());
    io.write16(reg::BG0HOFS, 255); // pixel 0 of the map appears at x = 1
    io.write16(reg::BG0VOFS, 256); // full wrap vertically
    let mut line = [0; SCREEN_WIDTH];
    render_text(&io, &video, 0, 0, &mut line);
    assert_eq!(line[1], 0x001F);
    assert_eq!(line[0], TRANSPARENT);
}

#[test]
fn text_bg_8bpp_and_512_wide_map() {
    let (mut io, mut video) = setup();
    // 8bpp, 512x256: screen blocks 0 (left) and 1 (right); char base block 1.
    io.write16(reg::BG0CNT, (1 << 7) | (1 << 14) | (1 << 2));
    let char_base = CHAR_BLOCK;
    video.vram[char_base + 64 * 3 + 8 * 2 + 4] = 5; // tile 3, (4, 2) = index 5
    // Right screen block, entry (0, 0) = tile 3.
    video.vram[SCREEN_BLOCK..SCREEN_BLOCK + 2].copy_from_slice(&3u16.to_le_bytes());
    io.write16(reg::BG0HOFS, 256);
    let mut line = [0; SCREEN_WIDTH];
    render_text(&io, &video, 0, 2, &mut line);
    assert_eq!(line[4], 0x03E0);
    assert_eq!(line[3], TRANSPARENT);
}

#[test]
fn affine_bg_identity_and_wrap() {
    let (mut io, mut video) = setup();
    // BG2: 8bpp tiles at char base 0, map at screen block 2, 128x128, wrap.
    io.write16(reg::BG2CNT, (2 << 8) | (1 << 13));
    io.write16(reg::BG2PA, 0x100);
    io.write16(reg::BG2PD, 0x100);
    video.vram[64 * 2 + 8 + 3] = 5; // tile 2, pixel (3, 1)
    video.vram[2 * SCREEN_BLOCK + 16 + 1] = 2; // map (1, 1) = tile 2
    let mut line = [0; SCREEN_WIDTH];
    render_affine(&io, &video, 2, 9, &mut line);
    assert_eq!(line[11], 0x03E0);
    assert_eq!(line[10], TRANSPARENT);
    assert_eq!(line[128 + 11], 0x03E0, "wraps at 128");

    io.write16(reg::BG2CNT, 2 << 8); // no wrap
    render_affine(&io, &video, 2, 9, &mut line);
    assert_eq!(line[128 + 11], TRANSPARENT);
    assert_eq!(line[11], 0x03E0);
}

#[test]
fn affine_reference_point_and_scale() {
    let (mut io, mut video) = setup();
    io.write16(reg::BG2CNT, (2 << 8) | (1 << 13));
    io.write16(reg::BG2PA, 0x200); // 2x horizontal zoom-out
    io.write16(reg::BG2PD, 0x100);
    io.write32(reg::BG2X, 0xFFF_FF00 & 0x0FFF_FFFF); // -1.0 in 28-bit
    video.vram[64 * 2 + 3] = 5; // tile 2, pixel (3, 0)
    video.vram[2 * SCREEN_BLOCK] = 2; // map (0, 0) = tile 2
    let mut line = [0; SCREEN_WIDTH];
    render_affine(&io, &video, 2, 0, &mut line);
    // texture x = -1 + 2*sx -> pixel 3 at sx = 2
    assert_eq!(line[2], 0x03E0);
    assert_eq!(line[1], TRANSPARENT);
}

#[test]
fn the_unused_palette_bit_is_no_colour() {
    let (mut io, mut video) = setup();
    io.write16(reg::BG0CNT, 1 << 8);
    video.vram[32] = 0x21;
    let map = SCREEN_BLOCK;
    video.vram[map..map + 2].copy_from_slice(&1u16.to_le_bytes());
    video.palette[2..4].copy_from_slice(&0x8000u16.to_le_bytes());
    video.palette[4..6].copy_from_slice(&0x83E0u16.to_le_bytes());
    let mut line = [0; SCREEN_WIDTH];
    render_text(&io, &video, 0, 0, &mut line);
    assert_eq!(line[0], 0, "black, not transparent");
    assert_eq!(line[1], 0x03E0);
    assert_eq!(line[2], TRANSPARENT);
}
