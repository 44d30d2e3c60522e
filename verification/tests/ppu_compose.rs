use tuiba_core::memory::reg;
use tuiba_core::memory::io::IoRegisters;
use tuiba_core::ppu::compose::compose_line;
use tuiba_core::ppu::framebuffer::SCREEN_WIDTH;
use tuiba_core::ppu::obj::ObjLine;
use tuiba_core::ppu::tiled::TRANSPARENT;

fn lines() -> [[u16; SCREEN_WIDTH]; 4] {
    let mut l = [[TRANSPARENT; SCREEN_WIDTH]; 4];
    l[0].fill(0x001F); // BG0 red everywhere
    l[1].fill(0x03E0); // BG1 green everywhere
    l
}

fn compose(io: &IoRegisters, obj: &ObjLine, prio: [u8; 4]) -> [u16; SCREEN_WIDTH] {
    let mut out = [0; SCREEN_WIDTH];
    compose_line(
        io,
        10,
        &lines(),
        [true, true, false, false],
        prio,
        true,
        obj,
        0x7C00,
        &mut out,
    );
    out
}

#[test]
fn priority_and_backdrop() {
    let io = IoRegisters::new();
    let obj = ObjLine::default();
    assert_eq!(
        compose(&io, &obj, [1, 0, 0, 0])[0],
        0x03E0,
        "BG1 wins with better priority"
    );
    assert_eq!(
        compose(&io, &obj, [0, 0, 0, 0])[0],
        0x001F,
        "tie goes to BG0"
    );
    let mut out = [0; SCREEN_WIDTH];
    compose_line(
        &io,
        0,
        &lines(),
        [false; 4],
        [0; 4],
        false,
        &obj,
        0x7C00,
        &mut out,
    );
    assert_eq!(out[5], 0x7C00, "backdrop");
}

#[test]
fn sprites_respect_priority_against_backgrounds() {
    let io = IoRegisters::new();
    let mut obj = ObjLine::default();
    obj.colors[0] = 0x7FFF;
    obj.priorities[0] = 1;
    assert_eq!(
        compose(&io, &obj, [1, 1, 0, 0])[0],
        0x7FFF,
        "equal priority: sprite on top"
    );
    assert_eq!(
        compose(&io, &obj, [0, 1, 0, 0])[0],
        0x001F,
        "BG0 priority 0 covers it"
    );
}

#[test]
fn windows_mask_layers() {
    let mut io = IoRegisters::new();
    io.write16(reg::DISPCNT, 1 << 13); // WIN0 on
    io.write16(reg::WIN0H, 0x0A14); // x 10..20
    io.write16(reg::WIN0V, 0x00A0); // y 0..160
    io.write16(reg::WININ, 0b0000_0010); // inside: only BG1
    io.write16(reg::WINOUT, 0b0000_0001); // outside: only BG0
    let out = compose(&io, &ObjLine::default(), [0; 4]);
    assert_eq!(out[15], 0x03E0);
    assert_eq!(out[5], 0x001F);
    assert_eq!(out[20], 0x001F, "x2 is exclusive");
    // Outside the vertical range the window does not apply.
    io.write16(reg::WIN0V, 0x141E); // y 20..30
    assert_eq!(compose(&io, &ObjLine::default(), [0; 4])[15], 0x001F);
}

#[test]
fn obj_window_uses_winout_high_byte() {
    let mut io = IoRegisters::new();
    io.write16(reg::DISPCNT, 1 << 15);
    io.write16(reg::WINOUT, 0b0000_0001 | (0b0000_0010 << 8));
    let mut obj = ObjLine::default();
    obj.window[7] = true;
    let out = compose(&io, &obj, [0; 4]);
    assert_eq!(out[7], 0x03E0, "inside obj window: BG1");
    assert_eq!(out[8], 0x001F, "outside: BG0");
}

#[test]
fn alpha_blending_and_brightness() {
    let mut io = IoRegisters::new();
    // BG0 (first) over BG1 (second), alpha 8/16 each.
    io.write16(reg::BLDCNT, 0b01 | (1 << 6) | (0b10 << 8));
    io.write16(reg::BLDALPHA, 8 | (8 << 8));
    let out = compose(&io, &ObjLine::default(), [0; 4]);
    assert_eq!(out[0], 0x000F | (0x0F << 5), "half red + half green");

    io.write16(reg::BLDCNT, 0b01 | (2 << 6)); // brighten BG0
    io.write16(reg::BLDY, 16);
    assert_eq!(compose(&io, &ObjLine::default(), [0; 4])[0], 0x7FFF);
    io.write16(reg::BLDCNT, 0b01 | (3 << 6)); // darken BG0
    assert_eq!(compose(&io, &ObjLine::default(), [0; 4])[0], 0);
    io.write16(reg::BLDCNT, 0b10 | (3 << 6)); // darken only BG1: BG0 untouched
    assert_eq!(compose(&io, &ObjLine::default(), [0; 4])[0], 0x001F);
}

#[test]
fn semi_transparent_sprite_blends_over_second_target() {
    let mut io = IoRegisters::new();
    io.write16(reg::BLDCNT, 0b01 << 8); // BG0 is a second target; no effect selected
    io.write16(reg::BLDALPHA, 8 | (8 << 8));
    let mut obj = ObjLine::default();
    obj.colors[0] = 0x7FFF;
    obj.semi_transparent[0] = true;
    let out = compose(&io, &obj, [0; 4]);
    assert_eq!(
        out[0],
        0x1F | (0x0F << 5) | (0x0F << 10),
        "white over red at 50%"
    );
    // Effects disabled by window: plain sprite colour.
    io.write16(reg::DISPCNT, 1 << 13);
    io.write16(reg::WIN0H, 240);
    io.write16(reg::WIN0V, 160);
    io.write16(reg::WININ, 0x1F); // all layers, no effects
    assert_eq!(compose(&io, &obj, [0; 4])[0], 0x7FFF);
}
