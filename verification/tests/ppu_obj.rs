use tuiba_core::memory::reg;
use tuiba_core::memory::io::IoRegisters;
use tuiba_core::memory::video::VideoMemory;
use tuiba_core::ppu::framebuffer::SCREEN_WIDTH;
use tuiba_core::ppu::obj::{ObjLine, OBJ_PALETTE_BASE, OBJ_VRAM_BASE, render_line};
use tuiba_core::ppu::tiled::TRANSPARENT;

fn write_oam(video: &mut VideoMemory, index: usize, a0: u16, a1: u16, a2: u16) {
    let b = index * 8;
    video.oam[b..b + 2].copy_from_slice(&a0.to_le_bytes());
    video.oam[b + 2..b + 4].copy_from_slice(&a1.to_le_bytes());
    video.oam[b + 4..b + 6].copy_from_slice(&a2.to_le_bytes());
}

/// OBJ palette 1 colour 1 = red, 256-colour index 7 = blue.
fn setup() -> (IoRegisters, VideoMemory) {
    let mut video = VideoMemory::new();
    let p = OBJ_PALETTE_BASE + 17 * 2;
    video.palette[p..p + 2].copy_from_slice(&0x001Fu16.to_le_bytes());
    let p = OBJ_PALETTE_BASE + 7 * 2;
    video.palette[p..p + 2].copy_from_slice(&0x7C00u16.to_le_bytes());
    (IoRegisters::new(), video)
}

fn render(
    io: &IoRegisters,
    video: &VideoMemory,
    y: usize,
) -> ([u16; SCREEN_WIDTH], [u8; SCREEN_WIDTH]) {
    let mut line = ObjLine::default();
    render_line(io, video, y, &mut line);
    (line.colors, line.priorities)
}

#[test]
fn simple_8x8_sprite_with_flip_and_priority() {
    let (io, mut video) = setup();
    // Tile 4, 4bpp: pixel (1, 2) = colour 1.
    video.vram[OBJ_VRAM_BASE + 4 * 32 + 2 * 4] = 0x10;
    // OBJ 0 at (10, 20), tile 4, palette 1, priority 2.
    write_oam(&mut video, 0, 20, 10, 4 | (2 << 10) | (1 << 12));
    let (colors, prios) = render(&io, &video, 22);
    assert_eq!(colors[11], 0x001F);
    assert_eq!(prios[11], 2);
    assert_eq!(colors[10], TRANSPARENT);
    assert_eq!(render(&io, &video, 21).0[11], TRANSPARENT);

    // Horizontal + vertical flip moves it to (6, 5) within the sprite.
    write_oam(
        &mut video,
        0,
        20,
        0x0A | (1 << 12) | (1 << 13),
        4 | (1 << 12),
    );
    let (colors, _) = render(&io, &video, 25);
    assert_eq!(colors[16], 0x001F);
}

#[test]
fn disabled_and_window_objects_draw_nothing() {
    let (io, mut video) = setup();
    video.vram[OBJ_VRAM_BASE + 32] = 0x11;
    write_oam(&mut video, 0, 1 << 9, 0, 1 | (1 << 12)); // disabled
    assert_eq!(render(&io, &video, 0).0[0], TRANSPARENT);
    write_oam(&mut video, 0, 2 << 10, 0, 1 | (1 << 12)); // obj window
    assert_eq!(render(&io, &video, 0).0[0], TRANSPARENT);
    write_oam(&mut video, 0, 0, 0, 1 | (1 << 12));
    assert_eq!(render(&io, &video, 0).0[0], 0x001F);
}

#[test]
fn oam_order_beats_priority_between_sprites() {
    let (io, mut video) = setup();
    video.vram[OBJ_VRAM_BASE + 32] = 0x11; // tile 1: pixels 0,1 colour 1
    video.vram[OBJ_VRAM_BASE + 64] = 0x77; // tile 2: 8bpp? no - 4bpp colour 7
    write_oam(&mut video, 0, 0, 0, 1 | (3 << 10) | (1 << 12)); // prio 3, palette 1
    write_oam(&mut video, 1, 0, 0, 2); // prio 0, palette 0
    let (colors, prios) = render(&io, &video, 0);
    assert_eq!(
        colors[0], 0x001F,
        "OBJ 0 wins although its priority is worse"
    );
    assert_eq!(prios[0], 3);
}

#[test]
fn negative_x_and_wrapped_y() {
    let (io, mut video) = setup();
    // 16x16 sprite (square, size 1), tile 0 with pixel (15, 15) set:
    // 2D mapping -> tile row 1 is tile 32, column 1 -> tile 33, pixel (7,7).
    video.vram[OBJ_VRAM_BASE + 33 * 32 + 7 * 4 + 3] = 0x10;
    // x = -8 (0x1F8), y = 250 -> wraps to -6; pixel lands at (7, 9).
    write_oam(&mut video, 0, 250, 0x1F8 | (1 << 14), 1 << 12);
    let (colors, _) = render(&io, &video, 9);
    assert_eq!(colors[7], 0x001F);
}

#[test]
fn one_dimensional_mapping_and_256_colours() {
    let (mut io, mut video) = setup();
    io.write16(reg::DISPCNT, 1 << 6); // 1D mapping
    // 16x8 (horizontal, size 0), 8bpp, tile 10: second tile is tile 12 in
    // 1D mode (two 32-byte units per 8bpp tile). Pixel (9, 3) = index 7.
    video.vram[OBJ_VRAM_BASE + 12 * 32 + 3 * 8 + 1] = 7;
    write_oam(&mut video, 0, (1 << 13) | (1 << 14), 0, 10);
    let (colors, _) = render(&io, &video, 3);
    assert_eq!(colors[9], 0x7C00);
    assert_eq!(colors[8], TRANSPARENT);
}

#[test]
fn affine_sprite_identity_and_double_size() {
    let (io, mut video) = setup();
    // 8x8 sprite, tile 1, pixel (0, 0) = colour 1.
    video.vram[OBJ_VRAM_BASE + 32] = 0x01;
    // Affine group 0 = identity.
    for (i, v) in [0x100u16, 0, 0, 0x100].iter().enumerate() {
        let o = 6 + i * 8;
        video.oam[o..o + 2].copy_from_slice(&v.to_le_bytes());
    }
    write_oam(&mut video, 0, 1 << 8, 0, 1 | (1 << 12));
    assert_eq!(render(&io, &video, 0).0[0], 0x001F);
    // Double size: the 16x16 box is centred, so texel (0,0) is at (4,4).
    write_oam(&mut video, 0, (1 << 8) | (1 << 9), 0, 1 | (1 << 12));
    let (colors, _) = render(&io, &video, 4);
    assert_eq!(colors[4], 0x001F);
    assert_eq!(colors[0], TRANSPARENT);
    assert_eq!(render(&io, &video, 0).0[0], TRANSPARENT);
}
