use tuiba_core::ppu::framebuffer::{Framebuffer, SCREEN_WIDTH, bgr555_to_rgba};

#[test]
fn colour_conversion_uses_full_range() {
    assert_eq!(bgr555_to_rgba(0x0000), 0x0000_00FF);
    assert_eq!(bgr555_to_rgba(0x7FFF), 0xFFFF_FFFF);
    assert_eq!(bgr555_to_rgba(0x001F), 0xFF00_00FF, "red");
    assert_eq!(bgr555_to_rgba(0x03E0), 0x00FF_00FF, "green");
    assert_eq!(bgr555_to_rgba(0x7C00), 0x0000_FFFF, "blue");
    assert_eq!(bgr555_to_rgba(0x8000), 0x0000_00FF, "bit 15 ignored");
    assert_eq!(bgr555_to_rgba(0x0010), 0x8400_00FF, "mid red = 0x84");
}

#[test]
fn framebuffer_rows_and_rgb() {
    let mut fb = Framebuffer::new();
    fb.row_mut(1)[2] = 0x1122_33FF;
    assert_eq!(fb.row(1)[2], 0x1122_33FF);
    assert_eq!(fb.pixels()[SCREEN_WIDTH + 2], 0x1122_33FF);
    assert_eq!(fb.rgb(2, 1), (0x11, 0x22, 0x33));
    assert_eq!(fb.rgb(0, 0), (0, 0, 0));
}
