//! What backgrounds and sprites look like, said of the bytes they are made
//! of.

use vstd::prelude::*;

use crate::apu::psg_laws::{lemma_byte_fields, lemma_half_fields};
use crate::bytes_laws::lemma_half_number;
use crate::memory::io::IoView;
use crate::memory::video::VideoView;
use crate::ppu::bitmap::{mode3_pixel, mode4_pixel, mode5_pixel, palette_color};
use crate::ppu::compose::composed_pixel;
use crate::ppu::framebuffer::{rgba_of, with_row};
use crate::ppu::obj::{
    decoded, lemma_attribute_fields, lemma_shift_bounds, matrix_entry, object_color, object_line,
    object_of, sprite_size, texel_color, texture_position, Object,
};
use crate::ppu::tiled::{
    affine_coordinate, affine_params, affine_texel, bg_color, bg_control, bg_control_of,
    lemma_wrapped_coordinate, pixel_4bpp, pixel_8bpp, reference_point, text_entry, text_pixel,
    walked, BgControl,
};
use crate::ppu::{backgrounds, bg_drawn, bg_pixel, plain_pixel, rendered_row};

verus! {

broadcast use crate::bits::group_mask_bounds;

/// Colour `index` of a palette memory: 15 bits of two bytes, low one first.
pub open spec fn color_at(palette: Seq<u8>, index: int) -> int {
    (palette[2 * index] + 256 * palette[2 * index + 1]) % 0x8000
}

#[verifier::rlimit(40)]
proof fn lemma_color(v: VideoView, index: int)
    ensures
        bg_color(v, index) == color_at(v.palette, index),
        palette_color(v, index) == color_at(v.palette, index),
{
    let (lo, hi) = (v.palette[2 * index], v.palette[2 * index + 1]);
    lemma_half_number(lo, hi);
    lemma_half_fields(crate::bytes::half_of(lo, hi));
}

/// The width or height of a text background, by a bit of its size field.
pub open spec fn extent(big: bool) -> int {
    if big {
        512
    } else {
        256
    }
}

/// Where the map entry for position `(xx, yy)` of a text background lies:
/// rows of 32 entries of two bytes, in blocks of 32 rows that stand side by
/// side and then below each other.
pub open spec fn entry_address(cnt: int, xx: int, yy: int) -> int {
    let across = if (cnt / 16384) % 2 == 1 {
        2int
    } else {
        1
    };
    2048 * ((cnt / 256) % 32) + 2048 * (xx / 256 + across * (yy / 256)) + 64 * ((yy % 256) / 8) + 2
        * ((xx % 256) / 8)
}

/// The map entry that a text background shows at a pixel, as a number.
pub open spec fn entry_at(io: IoView, v: VideoView, bg: int, y: int, x: int) -> int {
    let cnt = io.read16((8 + 2 * bg) as u32) as int;
    let xx = (x + io.read16((0x10 + 4 * bg) as u32) as int % 512) % extent((cnt / 16384) % 2 == 1);
    let yy = (y + io.read16((0x12 + 4 * bg) as u32) as int % 512) % extent(cnt / 32768 == 1);
    let at = entry_address(cnt, xx, yy);
    v.vram[at] + 256 * v.vram[at + 1]
}

/// A position within a tile, counted from the other edge where it is
/// flipped.
pub open spec fn within(p: int, flip: bool) -> int {
    if flip {
        7 - p % 8
    } else {
        p % 8
    }
}

#[verifier::rlimit(40)]
proof fn lemma_entry(io: IoView, v: VideoView, bg: int, y: int, x: int)
    requires
        0 <= bg < 4,
        0 <= x,
        0 <= y,
    ensures
        ({
            let cnt = io.read16((8 + 2 * bg) as u32) as int;
            let control = bg_control_of(io, bg);
            let xx = (x + io.read16((0x10 + 4 * bg) as u32) as int % 512) % extent(
                (cnt / 16384) % 2 == 1,
            );
            let yy = (y + io.read16((0x12 + 4 * bg) as u32) as int % 512) % extent(
                cnt / 32768 == 1,
            );
            &&& text_entry(v, control, xx, yy) == entry_at(io, v, bg, y, x)
            &&& control.char_base == 0x4000 * ((cnt / 4) % 4)
            &&& control.color_256 == ((cnt / 128) % 2 == 1)
            &&& crate::ppu::tiled::text_width(control.size) == extent((cnt / 16384) % 2 == 1)
            &&& crate::ppu::tiled::text_height(control.size) == extent(cnt / 32768 == 1)
        }),
{
    let cnt = io.read16((8 + 2 * bg) as u32);
    lemma_half_fields(cnt);
    let xx = (x + io.read16((0x10 + 4 * bg) as u32) as int % 512) % extent(
        (cnt as int / 16384) % 2 == 1,
    );
    let yy = (y + io.read16((0x12 + 4 * bg) as u32) as int % 512) % extent(cnt as int / 32768 == 1);
    lemma_map_entry(v, cnt, xx, yy);
}

/// The map entry for a position, as a number.
proof fn lemma_map_entry(v: VideoView, cnt: u16, xx: int, yy: int)
    requires
        0 <= xx < extent((cnt as int / 16384) % 2 == 1),
        0 <= yy < extent(cnt as int / 32768 == 1),
    ensures
        ({
            let at = entry_address(cnt as int, xx, yy);
            text_entry(v, bg_control(cnt), xx, yy) == v.vram[at] + 256 * v.vram[at + 1]
        }),
{
    lemma_map_control(cnt);
    lemma_map_place(xx);
    lemma_map_place(yy);
    let at = entry_address(cnt as int, xx, yy);
    lemma_half_number(v.vram[at], v.vram[at + 1]);
}

#[verifier::rlimit(40)]
proof fn lemma_map_control(cnt: u16)
    ensures
        ({
            let control = bg_control(cnt);
            &&& control.screen_base == 2048 * ((cnt as int / 256) % 32)
            &&& (crate::ppu::tiled::text_width(control.size) == 512) == ((cnt as int / 16384) % 2
                == 1)
        }),
{
    lemma_half_fields(cnt);
}

/// Rows and blocks of a map.
proof fn lemma_map_place(n: int)
    requires
        0 <= n < 512,
    ensures
        (n / 8) % 32 == (n % 256) / 8,
        n / 256 == if n >= 256 {
            1int
        } else {
            0
        },
{
}

/// Where a number stands within eight is not changed by wrapping it at 256 or
/// 512.
proof fn lemma_within_eight(n: int)
    requires
        0 <= n,
    ensures
        (n % 256) % 8 == n % 8,
        (n % 512) % 8 == n % 8,
{
}

/// A text background with 16 colours to a palette: its control register says
/// where map and tiles are, the scroll registers where it starts, the map
/// entry which tile, flipped how and in which palette, and half a byte of the
/// tile, the low half first, which colour. Colour zero shows nothing, and
/// neither do tiles past the memory for backgrounds.
pub proof fn law_text_pixel_16(io: IoView, v: VideoView, bg: int, y: int, x: int)
    requires
        0 <= bg < 4,
        0 <= x,
        0 <= y,
        (io.read16((8 + 2 * bg) as u32) as int / 128) % 2 == 0,
    ensures
        ({
            let cnt = io.read16((8 + 2 * bg) as u32) as int;
            let entry = entry_at(io, v, bg, y, x);
            let px = within(
                x + io.read16((0x10 + 4 * bg) as u32) as int % 512,
                (entry / 1024) % 2 == 1,
            );
            let py = within(
                y + io.read16((0x12 + 4 * bg) as u32) as int % 512,
                (entry / 2048) % 2 == 1,
            );
            let at = 0x4000 * ((cnt / 4) % 4) + 32 * (entry % 1024) + 4 * py + px / 2;
            let index = if px % 2 == 0 {
                v.vram[at] as int % 16
            } else {
                v.vram[at] as int / 16
            };
            text_pixel(io, v, bg, y, x) == if at >= 0x1_0000 || index == 0 {
                0x8000
            } else {
                color_at(v.palette, 16 * (entry / 4096) + index)
            }
        }),
{
    lemma_entry(io, v, bg, y, x);
    lemma_text_parts(io, v, bg, y, x);
    let entry = entry_at(io, v, bg, y, x);
    let cnt = io.read16((8 + 2 * bg) as u32) as int;
    let px = within(x + io.read16((0x10 + 4 * bg) as u32) as int % 512, (entry / 1024) % 2 == 1);
    let py = within(y + io.read16((0x12 + 4 * bg) as u32) as int % 512, (entry / 2048) % 2 == 1);
    let at = 0x4000 * ((cnt / 4) % 4) + 32 * (entry % 1024) + 4 * py + px / 2;
    lemma_byte_fields(v.vram[at]);
    lemma_color(v, 16 * (entry / 4096) + v.vram[at] as int % 16);
    lemma_color(v, 16 * (entry / 4096) + v.vram[at] as int / 16);
}

/// The parts of a text pixel, as numbers.
#[verifier::rlimit(40)]
proof fn lemma_text_parts(io: IoView, v: VideoView, bg: int, y: int, x: int)
    requires
        0 <= bg < 4,
        0 <= x,
        0 <= y,
    ensures
        ({
            let cnt = io.read16((8 + 2 * bg) as u32) as int;
            let control = bg_control_of(io, bg);
            let entry = entry_at(io, v, bg, y, x);
            let px = within(
                x + io.read16((0x10 + 4 * bg) as u32) as int % 512,
                (entry / 1024) % 2 == 1,
            );
            let py = within(
                y + io.read16((0x12 + 4 * bg) as u32) as int % 512,
                (entry / 2048) % 2 == 1,
            );
            text_pixel(io, v, bg, y, x) == if control.color_256 {
                pixel_8bpp(v, 0x4000 * ((cnt / 4) % 4), entry % 1024, px, py)
            } else {
                pixel_4bpp(v, 0x4000 * ((cnt / 4) % 4), entry % 1024, entry / 4096, px, py)
            }
        }),
{
    lemma_entry(io, v, bg, y, x);
    let (h, w) = (io.read16((0x10 + 4 * bg) as u32), io.read16((0x12 + 4 * bg) as u32));
    lemma_half_fields(h);
    lemma_half_fields(w);
    let control = bg_control_of(io, bg);
    let cnt = io.read16((8 + 2 * bg) as u32) as int;
    let xx = (x + h as int % 512) % extent((cnt / 16384) % 2 == 1);
    let yy = (y + w as int % 512) % extent(cnt / 32768 == 1);
    lemma_half_fields(text_entry(v, control, xx, yy));
    lemma_within_eight(x + h as int % 512);
    lemma_within_eight(y + w as int % 512);
}

/// A text background with 256 colours: the same, but that a byte of the tile
/// is the colour, of one palette.
pub proof fn law_text_pixel_256(io: IoView, v: VideoView, bg: int, y: int, x: int)
    requires
        0 <= bg < 4,
        0 <= x,
        0 <= y,
        (io.read16((8 + 2 * bg) as u32) as int / 128) % 2 == 1,
    ensures
        ({
            let cnt = io.read16((8 + 2 * bg) as u32) as int;
            let entry = entry_at(io, v, bg, y, x);
            let px = within(
                x + io.read16((0x10 + 4 * bg) as u32) as int % 512,
                (entry / 1024) % 2 == 1,
            );
            let py = within(
                y + io.read16((0x12 + 4 * bg) as u32) as int % 512,
                (entry / 2048) % 2 == 1,
            );
            let at = 0x4000 * ((cnt / 4) % 4) + 64 * (entry % 1024) + 8 * py + px;
            text_pixel(io, v, bg, y, x) == if at >= 0x1_0000 || v.vram[at] == 0 {
                0x8000
            } else {
                color_at(v.palette, v.vram[at] as int)
            }
        }),
{
    lemma_entry(io, v, bg, y, x);
    lemma_text_parts(io, v, bg, y, x);
    let entry = entry_at(io, v, bg, y, x);
    let cnt = io.read16((8 + 2 * bg) as u32) as int;
    let px = within(x + io.read16((0x10 + 4 * bg) as u32) as int % 512, (entry / 1024) % 2 == 1);
    let py = within(y + io.read16((0x12 + 4 * bg) as u32) as int % 512, (entry / 2048) % 2 == 1);
    let at = 0x4000 * ((cnt / 4) % 4) + 64 * (entry % 1024) + 8 * py + px;
    lemma_color(v, v.vram[at] as int);
}

/// The other fields of a background's control register: priority in bits 1:0,
/// mosaic in 6, wrapping in 13.
#[verifier::rlimit(40)]
pub proof fn law_background_control(io: IoView, bg: int)
    requires
        0 <= bg < 4,
    ensures
        ({
            let cnt = io.read16((8 + 2 * bg) as u32) as int;
            let control = bg_control_of(io, bg);
            &&& control.priority == cnt % 4
            &&& control.mosaic == ((cnt / 64) % 2 == 1)
            &&& control.wrap == ((cnt / 8192) % 2 == 1)
            &&& control.size == cnt / 16384
            &&& control.screen_base == 2048 * ((cnt / 256) % 32)
        }),
{
    lemma_half_fields(io.read16((8 + 2 * bg) as u32));
}

/// The backgrounds of each video mode: four flat ones; two flat and one that
/// turns; two that turn; one bitmap. A background is drawn where its bit in
/// the display control, from bit 8 up, is set too.
pub proof fn law_backgrounds_of_modes(on: u16, bg: int)
    requires
        0 <= bg < 4,
    ensures
        ({
            let mode = on % 8;
            let enabled = (on as int / 256 / (if bg == 0 {
                1int
            } else if bg == 1 {
                2
            } else if bg == 2 {
                4
            } else {
                8
            })) % 2 == 1;
            bg_drawn(on, bg) == (enabled && if mode == 0 {
                true
            } else if mode == 1 {
                bg < 3
            } else if mode == 2 {
                bg >= 2
            } else if mode <= 5 {
                bg == 2
            } else {
                false
            })
        }),
{
    lemma_display_control(on);
}

#[verifier::rlimit(40)]
proof fn lemma_display_control(on: u16)
    ensures
        on & 7 == on % 8,
        (on & (1u16 << 8) != 0) == ((on as int / 256) % 2 == 1),
        (on & (1u16 << 9) != 0) == ((on as int / 256 / 2) % 2 == 1),
        (on & (1u16 << 10) != 0) == ((on as int / 256 / 4) % 2 == 1),
        (on & (1u16 << 11) != 0) == ((on as int / 256 / 8) % 2 == 1),
{
    lemma_half_fields(on);
    lemma_quotients(on as int);
}

proof fn lemma_quotients(n: int)
    requires
        n >= 0,
    ensures
        n / 256 / 2 == n / 512,
        n / 256 / 4 == n / 1024,
        n / 256 / 8 == n / 2048,
{
}

/// Bitmap modes: a halfword per pixel over the whole screen; a byte per
/// pixel, of the background palette, with zero showing nothing; or a halfword
/// per pixel over 160 by 128. The last two have a second frame at 0xA000.
#[verifier::rlimit(40)]
pub proof fn law_bitmap_modes(v: VideoView, second: bool, y: int, x: int)
    ensures
        ({
            let start = if second {
                0xA000int
            } else {
                0
            };
            let half = |at: int| (v.vram[at] + 256 * v.vram[at + 1]) % 0x8000;
            let index = v.vram[start + 240 * y + x];
            &&& mode3_pixel(v, y, x) == half(2 * (240 * y + x))
            &&& mode4_pixel(v, second, y, x) == if index == 0 {
                0x8000
            } else {
                color_at(v.palette, index as int)
            }
            &&& mode5_pixel(v, second, y, x) == if x < 160 && y < 128 {
                half(start + 2 * (160 * y + x))
            } else {
                0x8000
            }
        }),
{
    let start = if second {
        0xA000int
    } else {
        0
    };
    lemma_color(v, v.vram[start + 240 * y + x] as int);
    let (a, b) = (480 * y + 2 * x, start + 320 * y + 2 * x);
    lemma_half_number(v.vram[a], v.vram[a + 1]);
    lemma_half_number(v.vram[b], v.vram[b + 1]);
    lemma_half_fields(crate::bytes::half_of(v.vram[a], v.vram[a + 1]));
    lemma_half_fields(crate::bytes::half_of(v.vram[b], v.vram[b + 1]));
}

/// Which renderer draws a background, by the video mode.
#[verifier::rlimit(40)]
pub proof fn law_renderer_of_mode(io: IoView, v: VideoView, bg: int, y: usize, x: int)
    ensures
        ({
            let on = io.read16(0);
            let mode = on % 8;
            let second = (on / 16) % 2 == 1;
            plain_pixel(io, v, bg, y, x) == if mode == 3 {
                mode3_pixel(v, y as int, x)
            } else if mode == 4 {
                mode4_pixel(v, second, y as int, x)
            } else if mode == 5 {
                mode5_pixel(v, second, y as int, x)
            } else if (mode == 1 && bg == 2) || (mode == 2 && bg >= 2) {
                crate::ppu::tiled::affine_pixel(io, v, bg, y, x)
            } else {
                text_pixel(io, v, bg, y as int, x)
            }
        }),
{
    lemma_half_fields(io.read16(0));
}

/// Walking adds the step as often as it says, as long as it stays in range.
pub proof fn law_walk(start: i32, step: i32, steps: int)
    requires
        0 <= steps <= 240,
        -0x800_0000 <= start <= 0x800_0000,
        -0x8000 <= step <= 0x7FFF,
    ensures
        walked(start, step, steps) == start + steps * step,
    decreases steps,
{
    if steps > 0 {
        law_walk(start, step, steps - 1);
        assert((steps - 1) * step + step == steps * step) by (nonlinear_arith);
        assert(-240 * 0x8000 <= (steps - 1) * step <= 240 * 0x8000) by (nonlinear_arith)
            requires
                0 <= steps - 1 <= 240,
                -0x8000 <= step <= 0x7FFF,
        ;
        let before = walked(start, step, steps - 1);
        assert(before == start + (steps - 1) * step);
        assert(walked(start, step, steps) == before.wrapping_add(step));
        assert(before.wrapping_add(step) == before + step);
    } else {
        assert(steps * step == 0) by (nonlinear_arith)
            requires
                steps == 0,
        ;
    }
}

/// The parameters of a turning background: four signed fractions of 256, and
/// a signed 28-bit starting point, from the register bank of the second or
/// the third background.
#[verifier::rlimit(40)]
pub proof fn law_affine_registers(io: IoView, bg: int)
    requires
        bg == 2 || bg == 3,
    ensures
        ({
            let base = if bg == 2 {
                0x20u32
            } else {
                0x30u32
            };
            let p = affine_params(io, bg);
            let signed = |half: u16|
                if half < 0x8000 {
                    half as int
                } else {
                    half - 0x1_0000
                };
            let point = |word: u32|
                if word & 0xFFF_FFFF < 0x800_0000 {
                    (word & 0xFFF_FFFF) as int
                } else {
                    (word & 0xFFF_FFFF) - 0x1000_0000
                };
            &&& p.pa == signed(io.read16(base))
            &&& p.pb == signed(io.read16((base + 2) as u32))
            &&& p.pc == signed(io.read16((base + 4) as u32))
            &&& p.pd == signed(io.read16((base + 6) as u32))
            &&& p.x == point(io.read32((base + 8) as u32))
            &&& p.y == point(io.read32((base + 12) as u32))
        }),
{
    let base = if bg == 2 {
        0x20u32
    } else {
        0x30u32
    };
    crate::bits::small_facts(0, io.read16(base), 0, 0);
    crate::bits::small_facts(0, io.read16((base + 2) as u32), 0, 0);
    crate::bits::small_facts(0, io.read16((base + 4) as u32), 0, 0);
    crate::bits::small_facts(0, io.read16((base + 6) as u32), 0, 0);
    crate::bits::word_facts(io.read32((base + 8) as u32), 0, 0, 0);
    crate::bits::word_facts(io.read32((base + 12) as u32), 0, 0, 0);
    assert(affine_params(io, bg).x == reference_point(io.read32((base + 8) as u32)));
    assert(affine_params(io, bg).y == reference_point(io.read32((base + 12) as u32)));
}

/// A turning background either repeats or shows nothing outside.
pub proof fn law_affine_edges(t: i32, size: i32)
    requires
        size == 128 || size == 256 || size == 512 || size == 1024,
    ensures
        affine_coordinate(t, size, true) == Some(t as int % size as int),
        affine_coordinate(t, size, false) == if 0 <= t < size {
            Some(t as int)
        } else {
            None
        },
{
    lemma_wrapped_coordinate(t, (size - 1) as i32);
    lemma_wraps(t as int, (t as u32) as int);
}

/// A number and the word that stands for it leave the same remainders.
proof fn lemma_wraps(n: int, word: int)
    requires
        word == n || word == n + 0x1_0000_0000,
    ensures
        word % 128 == n % 128,
        word % 256 == n % 256,
        word % 512 == n % 512,
        word % 1024 == n % 1024,
{
    vstd::arithmetic::div_mod::lemma_mod_multiples_vanish(0x200_0000, n, 128);
    vstd::arithmetic::div_mod::lemma_mod_multiples_vanish(0x100_0000, n, 256);
    vstd::arithmetic::div_mod::lemma_mod_multiples_vanish(0x80_0000, n, 512);
    vstd::arithmetic::div_mod::lemma_mod_multiples_vanish(0x40_0000, n, 1024);
}

/// The map of a turning background of 128, 256, 512 or 1024 pixels square has
/// a byte per tile, and its tiles have 256 colours.
pub proof fn law_affine_texture(v: VideoView, cnt: BgControl, x: int, y: int)
    requires
        0 <= x,
        0 <= y,
    ensures
        ({
            let across = if cnt.size == 0 {
                16int
            } else if cnt.size == 1 {
                32
            } else if cnt.size == 2 {
                64
            } else {
                128
            };
            let tile = v.vram[cnt.screen_base + (y / 8) * across + x / 8] as int;
            let at = cnt.char_base + 64 * tile + 8 * (y % 8) + x % 8;
            affine_texel(v, cnt, x, y) == if at >= 0x1_0000 || v.vram[at] == 0 {
                0x8000
            } else {
                color_at(v.palette, v.vram[at] as int)
            }
        }),
{
    let across = if cnt.size == 0 {
        16int
    } else if cnt.size == 1 {
        32
    } else if cnt.size == 2 {
        64
    } else {
        128
    };
    let tile = v.vram[cnt.screen_base + (y / 8) * across + x / 8] as int;
    let at = cnt.char_base + 64 * tile + 8 * (y % 8) + x % 8;
    lemma_color(v, v.vram[at] as int);
}

/// The attributes of a sprite, by their fields. A sprite that would reach
/// past line 256 starts above the screen, and one from column 256 on starts to
/// the left of it.
#[verifier::rlimit(40)]
pub proof fn law_sprite_attributes(a0: u16, a1: u16, a2: u16)
    ensures
        ({
            let turns = (a0 / 256) % 2 == 1;
            let extra = (a0 / 512) % 2 == 1;
            let y = a0 as int % 256;
            let x = a1 as int % 512;
            match decoded(a0, a1, a2) {
                None => (!turns && extra) || a0 / 16384 == 3,
                Some(o) => {
                    &&& turns || !extra
                    &&& a0 / 16384 != 3
                    &&& (o.width as int, o.height as int) == sprite_size(
                        (a0 / 16384) as u16,
                        (a1 / 16384) as u16,
                    )
                    &&& o.x == if x < 256 {
                        x
                    } else {
                        x - 512
                    }
                    &&& o.double_size == (turns && extra)
                    &&& o.y == if y + (if o.double_size {
                        2 * o.height
                    } else {
                        o.height as int
                    }) > 256 {
                        y - 256
                    } else {
                        y
                    }
                    &&& o.affine == if turns {
                        Some(((a1 / 512) % 32) as usize)
                    } else {
                        None
                    }
                    &&& o.hflip == (!turns && (a1 / 4096) % 2 == 1)
                    &&& o.vflip == (!turns && (a1 / 8192) % 2 == 1)
                    &&& o.color_256 == ((a0 / 8192) % 2 == 1)
                    &&& o.semi_transparent == ((a0 / 1024) % 4 == 1)
                    &&& o.hidden == ((a0 / 1024) % 4 == 2)
                    &&& o.tile == a2 % 1024
                    &&& o.priority == (a2 / 1024) % 4
                    &&& o.palette == a2 / 4096
                },
            }
        }),
{
    lemma_half_fields(a0);
    lemma_half_fields(a1);
    lemma_half_fields(a2);
    lemma_attribute_fields(a1, a2);
}

/// The shapes of sprites: squares of 8 to 64; two to one, four to one, two to
/// one and two to one in width; and the same upright.
pub proof fn law_sprite_sizes(size: u16)
    requires
        size < 4,
    ensures
        ({
            let edge = if size == 0 {
                8int
            } else if size == 1 {
                16
            } else if size == 2 {
                32
            } else {
                64
            };
            let (w, h) = sprite_size(1, size);
            &&& sprite_size(0, size) == (edge, edge)
            &&& sprite_size(2, size) == (h, w)
            &&& w == if size == 0 {
                16int
            } else if size == 3 {
                64
            } else {
                32
            }
            &&& h == if size < 2 {
                8int
            } else if size == 2 {
                16
            } else {
                32
            }
        }),
{
}

/// A sprite that does not turn shows its picture from its corner on, counted
/// from the other edge where it is flipped, and nothing outside.
pub proof fn law_plain_sprite(v: VideoView, o: Object, x: int, y: int)
    requires
        o.affine is None,
        !o.double_size,
    ensures
        ({
            let (ix, iy) = (x - o.x, y - o.y);
            match texture_position(v, o, x, y) {
                Some((tx, ty)) => {
                    &&& 0 <= ix < o.width
                    &&& 0 <= iy < o.height
                    &&& tx == if o.hflip {
                        o.width - 1 - ix
                    } else {
                        ix
                    }
                    &&& ty == if o.vflip {
                        o.height - 1 - iy
                    } else {
                        iy
                    }
                },
                None => !(0 <= ix < o.width && 0 <= iy < o.height),
            }
        }),
{
}

/// The picture of a sprite within its memory: tiles one behind the other, or
/// in rows of 32, with 16 colours of one palette or 256; colour zero shows
/// nothing, and bitmap modes leave out the first half of the tiles.
pub proof fn law_sprite_texel(
    v: VideoView,
    o: Object,
    linear: bool,
    bitmap: bool,
    tx: int,
    ty: int,
)
    requires
        0 <= tx < o.width <= 64,
        0 <= ty < o.height <= 64,
        o.width % 8 == 0,
        o.tile < 1024,
        o.palette < 16,
    ensures
        ({
            let unit = if o.color_256 {
                2int
            } else {
                1
            };
            let row = if linear {
                unit * (o.width as int / 8)
            } else {
                32
            };
            let tile = o.tile + row * (ty / 8) + unit * (tx / 8);
            let start = 0x1_0000 + 32 * (tile % 1024);
            let at = start + if o.color_256 {
                8 * (ty % 8) + tx % 8
            } else {
                4 * (ty % 8) + (tx % 8) / 2
            };
            let byte = v.vram[if at >= 0x1_8000 {
                at - 0x8000
            } else {
                at
            }] as int;
            let index = if o.color_256 {
                byte
            } else if tx % 2 == 0 {
                byte % 16
            } else {
                byte / 16
            };
            texel_color(v, o, linear, bitmap, tx, ty) == if (bitmap && tile < 512) || index == 0 {
                0x8000
            } else {
                color_at(
                    v.palette,
                    256 + if o.color_256 {
                        index
                    } else {
                        16 * o.palette + index
                    },
                )
            }
        }),
{
    let unit = if o.color_256 {
        2int
    } else {
        1
    };
    let row = if linear {
        unit * (o.width as int / 8)
    } else {
        32
    };
    assert(row * (ty / 8) == (ty / 8) * row) by (nonlinear_arith);
    assert(unit * (o.width as int / 8) == (o.width as int / 8) * unit) by (nonlinear_arith);
    assert(unit * (tx / 8) == (tx / 8) * unit) by (nonlinear_arith);
    assert(0 <= row * (ty / 8) <= 32 * 7) by (nonlinear_arith)
        requires
            0 <= row <= 32,
            0 <= ty / 8 <= 7,
    ;
    let tile = o.tile + row * (ty / 8) + unit * (tx / 8);
    let start = 0x1_0000 + 32 * (tile % 1024);
    let at = start + if o.color_256 {
        8 * (ty % 8) + tx % 8
    } else {
        4 * (ty % 8) + (tx % 8) / 2
    };
    lemma_vram(at as u32);
    let byte = v.vram[if at >= 0x1_8000 {
        at - 0x8000
    } else {
        at
    }];
    lemma_byte_fields(byte);
    let index = if o.color_256 {
        byte as int
    } else if tx % 2 == 0 {
        byte as int % 16
    } else {
        byte as int / 16
    };
    let entry = 256 + if o.color_256 {
        index
    } else {
        16 * o.palette + index
    };
    lemma_color(v, entry);
}

/// Where video memory puts an offset below its mirror.
#[verifier::rlimit(40)]
proof fn lemma_vram(at: u32)
    requires
        at < 0x2_0000,
    ensures
        crate::memory::video::vram_position(at) == if at >= 0x1_8000 {
            at - 0x8000
        } else {
            at as int
        },
{
    crate::bits::word_facts(at, 0, 0, 0);
}

/// A mosaic background shows, in blocks whose width and height the mosaic
/// register gives less one, the first pixel of each block.
#[verifier::rlimit(40)]
pub proof fn law_mosaic_blocks(io: IoView, v: VideoView, bg: int, y: int, x: int)
    requires
        0 <= bg < 4,
        0 <= x < 240,
        0 <= y < 160,
    ensures
        ({
            let size = io.read16(0x4C) as int;
            let (w, h) = (size % 16 + 1, (size / 16) % 16 + 1);
            bg_pixel(io, v, bg, y, x) == if (io.read16((8 + 2 * bg) as u32) / 64) % 2 == 1 {
                plain_pixel(io, v, bg, (y - y % h) as usize, x - x % w)
            } else {
                plain_pixel(io, v, bg, y as usize, x)
            }
        }),
{
    lemma_half_fields(io.read16(0x4C));
    lemma_half_fields(io.read16((8 + 2 * bg) as u32));
}

/// The matrix of a turning sprite lies between the attributes of four sprites,
/// and takes the distance from its middle, in 256ths, to that from the middle
/// of its picture, rounded down.
pub proof fn law_turning_sprite(v: VideoView, o: Object, group: usize, x: int, y: int)
    requires
        o.affine == Some(group),
        group < 32,
        o.width <= 64,
        o.height <= 64,
        texture_position(v, o, x, y) is Some,
    ensures
        ({
            let entry = |i: int|
                {
                    let at = 32 * group + 6 + 8 * i;
                    let half = v.oam[at] + 256 * v.oam[at + 1];
                    if half < 0x8000 {
                        half
                    } else {
                        half - 0x1_0000
                    }
                };
            let dx = x - o.x - (if o.double_size {
                o.width as int
            } else {
                o.width as int / 2
            });
            let dy = y - o.y - (if o.double_size {
                o.height as int
            } else {
                o.height as int / 2
            });
            let (tx, ty) = texture_position(v, o, x, y)->0;
            let rounds = |r: int, exact: int| 256 * r <= exact < 256 * r + 256;
            &&& rounds(tx - o.width as int / 2, entry(0) * dx + entry(1) * dy)
            &&& rounds(ty - o.height as int / 2, entry(2) * dx + entry(3) * dy)
            &&& 0 <= tx < o.width
            &&& 0 <= ty < o.height
        }),
{
    lemma_matrix(v, group as int, 0);
    lemma_matrix(v, group as int, 1);
    lemma_matrix(v, group as int, 2);
    lemma_matrix(v, group as int, 3);
    let dx = x - o.x - o.box_width() / 2;
    let dy = y - o.y - o.box_height() / 2;
    let m = |i: int| matrix_entry(v, group as int, i) as int;
    lemma_turned(m(0), dx, m(1), dy);
    lemma_turned(m(2), dx, m(3), dy);
}

proof fn lemma_matrix(v: VideoView, group: int, i: int)
    ensures
        ({
            let at = 32 * group + 6 + 8 * i;
            let half = v.oam[at] + 256 * v.oam[at + 1];
            matrix_entry(v, group, i) == if half < 0x8000 {
                half
            } else {
                half - 0x1_0000
            }
        }),
{
    let at = 32 * group + 6 + 8 * i;
    lemma_half_number(v.oam[at], v.oam[at + 1]);
    crate::bits::small_facts(0, crate::bytes::half_of(v.oam[at], v.oam[at + 1]), 0, 0);
}

proof fn lemma_turned(a: int, dx: int, b: int, dy: int)
    requires
        -0x8000 <= a < 0x8000,
        -0x8000 <= b < 0x8000,
        -128 <= dx <= 128,
        -128 <= dy <= 128,
    ensures
        ({
            let r = ((a * dx + b * dy) as i32) >> 8u32;
            256 * r <= a * dx + b * dy < 256 * r + 256
        }),
{
    assert(-0x40_0000 <= a * dx <= 0x40_0000 && -0x40_0000 <= b * dy <= 0x40_0000)
        by (nonlinear_arith)
        requires
            -0x8000 <= a <= 0x8000,
            -0x8000 <= b <= 0x8000,
            -128 <= dx <= 128,
            -128 <= dy <= 128,
    ;
    lemma_shift_bounds((a * dx + b * dy) as i32);
}

/// A line of the screen: white while it is blanked by force, and otherwise
/// what is composed of backgrounds, of sprites where they are on, and of the
/// first colour of the palette.
#[verifier::rlimit(40)]
pub proof fn law_screen_line(io: IoView, v: VideoView, y: int, x: int)
    requires
        0 <= x < 240,
    ensures
        ({
            let on = io.read16(0);
            rendered_row(io, v, y)[x] == if (on / 128) % 2 == 1 {
                0xFFFF_FFFF
            } else {
                rgba_of(
                    composed_pixel(
                        io,
                        y,
                        backgrounds(io, v, y),
                        (on / 4096) % 2 == 1,
                        object_line(v, on, y),
                        palette_color(v, 0),
                        x,
                    ),
                )
            }
        }),
{
    lemma_half_fields(io.read16(0));
}

/// Pixel `(x, y)` of a frame is the one that the line drawn at `y` has at `x`,
/// and a line that is drawn changes no other.
pub proof fn law_frame_rows(pixels: Seq<u32>, row: Seq<u32>, y: int, x: int, line: int)
    requires
        pixels.len() == 240 * 160,
        0 <= x < 240,
        0 <= y < 160,
        0 <= line < 160,
    ensures
        with_row(pixels, line, row)[240 * y + x] == if y == line {
            row[x]
        } else {
            pixels[240 * y + x]
        },
{
}

/// Which sprites share tiles one behind the other, and that bitmap modes leave
/// out tiles, by the display control.
#[verifier::rlimit(40)]
pub proof fn law_sprite_modes(v: VideoView, on: u16, index: int, x: int, y: int)
    ensures
        object_color(v, on, index, x, y) == match object_of(v, index) {
            Some(o) => match texture_position(v, o, x, y) {
                Some((tx, ty)) => texel_color(
                    v,
                    o,
                    (on / 64) % 2 == 1,
                    on % 8 >= 3,
                    tx,
                    ty,
                ),
                None => 0x8000,
            },
            None => 0x8000,
        },
        ({
            let half = |k: int| (v.oam[8 * index + k] + 256 * v.oam[8 * index + k + 1]) as u16;
            object_of(v, index) == decoded(half(0), half(2), half(4))
        }),
{
    lemma_half_fields(on);
    let at = 8 * index;
    lemma_half_number(v.oam[at], v.oam[at + 1]);
    lemma_half_number(v.oam[at + 2], v.oam[at + 3]);
    lemma_half_number(v.oam[at + 4], v.oam[at + 5]);
}

} // verus!
