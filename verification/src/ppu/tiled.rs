//! Tiled background rendering: text backgrounds (modes 0–1) and
//! rotation/scaling backgrounds (modes 1–2).
//!
//! Each renderer fills a scanline buffer with 15-bit colours, using
//! [`TRANSPARENT`] where the layer shows nothing.

use vstd::prelude::*;

use crate::bytes::{get16, half_at};
use crate::memory::io::{reg, IoRegisters, IoView};
use crate::memory::video::{VideoMemory, VideoView};
use crate::ppu::framebuffer::SCREEN_WIDTH;

verus! {

broadcast use crate::bits::group_mask_bounds;

/// Marker for "no pixel here": bit 15 is unused by BGR555.
pub const TRANSPARENT: u16 = 0x8000;

/// Size of one character (tile data) base block.
pub const CHAR_BLOCK: usize = 0x4000;
/// Size of one screen (tile map) base block.
pub const SCREEN_BLOCK: usize = 0x800;
/// Upper bound of background tile data in VRAM; object tiles live above.
pub const BG_VRAM_END: usize = 0x1_0000;

/// Decoded `MOSAIC`: block sizes in pixels (1 = off).
#[derive(Debug, Clone, Copy, PartialEq, Eq, Structural)]
pub struct Mosaic {
    /// Background block width.
    pub bg_h: usize,
    /// Background block height.
    pub bg_v: usize,
    /// Object block width.
    pub obj_h: usize,
    /// Object block height.
    pub obj_v: usize,
}

/// The block size that the low nibble of `field` stores: the size minus one.
pub open spec fn mosaic_size(field: u16) -> int {
    (field & 0xF) + 1
}

impl Mosaic {
    /// Reads `MOSAIC`; each nibble stores the size minus one.
    #[must_use]
    pub fn read(io: &IoRegisters) -> (mosaic: Self)
        requires
            io.wf(),
        ensures
            mosaic.bg_h == mosaic_size(io@.read16(reg::MOSAIC)),
            mosaic.bg_v == mosaic_size(io@.read16(reg::MOSAIC) >> 4),
            mosaic.obj_h == mosaic_size(io@.read16(reg::MOSAIC) >> 8),
            mosaic.obj_v == mosaic_size(io@.read16(reg::MOSAIC) >> 12),
    {
        let v: u16 = io.read16(reg::MOSAIC);
        Self {
            bg_h: (v & 0xF) as usize + 1,
            bg_v: ((v >> 4) & 0xF) as usize + 1,
            obj_h: ((v >> 8) & 0xF) as usize + 1,
            obj_v: ((v >> 12) & 0xF) as usize + 1,
        }
    }
}

/// The top/left edge of the `size`-pixel mosaic block that `coord` is in.
pub open spec fn snapped(coord: int, size: int) -> int {
    coord - coord % size
}

/// Snaps `coord` to the top/left edge of its `size`-pixel mosaic block.
#[inline]
#[must_use]
pub fn mosaic_snap(coord: usize, size: usize) -> (edge: usize)
    requires
        size > 0,
    ensures
        edge == snapped(coord as int, size as int),
        edge <= coord,
{
    proof {
        vstd::arithmetic::div_mod::lemma_mod_decreases(coord as nat, size as nat);
    }
    coord - coord % size
}

/// Applies horizontal mosaic to a rendered line: every pixel takes the
/// colour of the first pixel of its block.
pub fn mosaic_h(line: &mut [u16; 240], size: usize)
    ensures
        size <= 1 ==> final(line)@ == old(line)@,
        size > 1 ==> final(line)@ == Seq::new(
            240,
            |x: int| old(line)@[snapped(x, size as int)],
        ),
{
    if size <= 1 {
        return;
    }
    let ghost before = line@;
    for x in 0..SCREEN_WIDTH
        invariant
            size > 1,
            before.len() == 240,
            forall|k: int| 0 <= k < x ==> line@[k] == before[snapped(k, size as int)],
            forall|k: int| x <= k < 240 ==> line@[k] == before[k],
    {
        let edge: usize = mosaic_snap(x, size);
        proof {
            // The block's edge is its own edge.
            vstd::arithmetic::div_mod::lemma_fundamental_div_mod(x as int, size as int);
            assert(edge == size * (x as int / size as int));
            vstd::arithmetic::div_mod::lemma_mod_multiples_basic(
                x as int / size as int,
                size as int,
            );
            vstd::arithmetic::mul::lemma_mul_is_commutative(x as int / size as int, size as int);
            assert(edge as int % size as int == 0);
            assert(snapped(edge as int, size as int) == edge);
        }
        line[x] = line[edge];
    }
    assert(line@ =~= Seq::new(240, |x: int| before[snapped(x, size as int)]));
}

/// Decoded `BGxCNT`.
#[derive(Debug, Clone, Copy, PartialEq, Eq, Structural)]
pub struct BgControl {
    /// Drawing priority, 0 (front) to 3 (back).
    pub priority: u8,
    /// Whether the mosaic effect applies to this background.
    pub mosaic: bool,
    /// Byte offset of tile data in VRAM.
    pub char_base: usize,
    /// Byte offset of the tile map in VRAM.
    pub screen_base: usize,
    /// 256-colour (8bpp) tiles; affine backgrounds are always 8bpp.
    pub color_256: bool,
    /// Affine only: wrap around instead of showing transparency outside.
    pub wrap: bool,
    /// Bits 15:14, interpreted per background type.
    pub size: u8,
}

/// `BGxCNT` value `cnt`, decoded.
pub open spec fn bg_control(cnt: u16) -> BgControl {
    BgControl {
        priority: (cnt & 0b11) as u8,
        mosaic: cnt & (1u16 << 6) != 0,
        char_base: (((cnt >> 2) & 0b11) * CHAR_BLOCK) as usize,
        screen_base: (((cnt >> 8) & 0x1F) * SCREEN_BLOCK) as usize,
        color_256: cnt & (1u16 << 7) != 0,
        wrap: cnt & (1u16 << 13) != 0,
        size: (cnt >> 14) as u8,
    }
}

/// The decoded control register of background `bg`.
pub open spec fn bg_control_of(io: IoView, bg: int) -> BgControl {
    bg_control(io.read16((reg::BG0CNT + 2 * bg) as u32))
}

impl BgControl {
    /// Reads and decodes `BGxCNT` for background `bg`.
    #[must_use]
    pub fn read(io: &IoRegisters, bg: usize) -> (control: Self)
        requires
            io.wf(),
            bg <= 3,
        ensures
            control == bg_control_of(io@, bg as int),
            control.priority <= 3,
            control.size <= 3,
            control.char_base <= 0xC000,
            control.screen_base <= 0xF800,
    {
        let cnt: u16 = io.read16(reg::BG0CNT + 2 * bg as u32);
        proof {
            crate::bits::high_field_facts(0, cnt);
        }
        Self {
            priority: (cnt & 0b11) as u8,
            mosaic: cnt & (1u16 << 6) != 0,
            char_base: ((cnt >> 2) & 0b11) as usize * CHAR_BLOCK,
            screen_base: ((cnt >> 8) & 0x1F) as usize * SCREEN_BLOCK,
            color_256: cnt & (1u16 << 7) != 0,
            wrap: cnt & (1u16 << 13) != 0,
            size: (cnt >> 14) as u8,
        }
    }
}

/// Background palette entry `index`, without its unused top bit.
pub open spec fn bg_color(v: VideoView, index: int) -> u16 {
    half_at(v.palette, 2 * index) & 0x7FFF
}

/// Colour of pixel `(px, py)` inside 8bpp tile `tile`, or `TRANSPARENT`.
pub open spec fn pixel_8bpp(v: VideoView, char_base: int, tile: int, px: int, py: int) -> u16 {
    let offset = char_base + tile * 64 + py * 8 + px;
    if offset >= BG_VRAM_END || v.vram[offset] == 0 {
        TRANSPARENT
    } else {
        bg_color(v, v.vram[offset] as int)
    }
}

/// Colour of pixel `(px, py)` inside 4bpp tile `tile` using `palette`, or
/// `TRANSPARENT`.
pub open spec fn pixel_4bpp(
    v: VideoView,
    char_base: int,
    tile: int,
    palette: int,
    px: int,
    py: int,
) -> u16 {
    let offset = char_base + tile * 32 + py * 4 + px / 2;
    let byte = v.vram[offset];
    let index = if px % 2 == 0 {
        byte & 0xF
    } else {
        byte >> 4
    };
    if offset >= BG_VRAM_END || index == 0 {
        TRANSPARENT
    } else {
        bg_color(v, palette * 16 + index)
    }
}

/// Reads background palette entry `index`.
#[inline]
fn bg_palette(video: &VideoMemory, index: usize) -> (color: u16)
    requires
        video.wf(),
        index < 512,
    ensures
        color == bg_color(video@, index as int),
{
    get16(video.palette.as_slice(), 2 * index) & 0x7FFF
}

/// Colour of pixel `(px, py)` inside 8bpp tile `tile`, or `TRANSPARENT`.
#[inline]
fn tile_pixel_8bpp(
    video: &VideoMemory,
    char_base: usize,
    tile: usize,
    px: usize,
    py: usize,
) -> (color: u16)
    requires
        video.wf(),
        char_base <= 0xC000,
        tile <= 0x3FF,
        px <= 7,
        py <= 7,
    ensures
        color == pixel_8bpp(video@, char_base as int, tile as int, px as int, py as int),
{
    let offset: usize = char_base + tile * 64 + py * 8 + px;
    if offset >= BG_VRAM_END {
        return TRANSPARENT;
    }
    let index: u8 = video.vram[offset];
    if index == 0 {
        TRANSPARENT
    } else {
        bg_palette(video, index as usize)
    }
}

/// Colour of pixel `(px, py)` inside 4bpp tile `tile` using `palette`.
#[inline]
fn tile_pixel_4bpp(
    video: &VideoMemory,
    char_base: usize,
    tile: usize,
    palette: usize,
    px: usize,
    py: usize,
) -> (color: u16)
    requires
        video.wf(),
        char_base <= 0xC000,
        tile <= 0x3FF,
        palette <= 15,
        px <= 7,
        py <= 7,
    ensures
        color == pixel_4bpp(
            video@,
            char_base as int,
            tile as int,
            palette as int,
            px as int,
            py as int,
        ),
{
    let offset: usize = char_base + tile * 32 + py * 4 + px / 2;
    if offset >= BG_VRAM_END {
        return TRANSPARENT;
    }
    let byte: u8 = video.vram[offset];
    proof {
        crate::bits::high_field_facts(byte, 0);
    }
    let index: u8 = if px % 2 == 0 {
        byte & 0xF
    } else {
        byte >> 4
    };
    if index == 0 {
        TRANSPARENT
    } else {
        bg_palette(video, palette * 16 + index as usize)
    }
}

/// The width of a text background in pixels.
pub open spec fn text_width(size: u8) -> int {
    if size == 0 || size == 2 {
        256
    } else {
        512
    }
}

/// The height of a text background in pixels.
pub open spec fn text_height(size: u8) -> int {
    if size == 0 || size == 1 {
        256
    } else {
        512
    }
}

/// The map entry for map position `(xx, yy)`. Screen blocks of 32×32 entries
/// are laid out left-to-right, then top-to-bottom.
pub open spec fn text_entry(v: VideoView, cnt: BgControl, xx: int, yy: int) -> u16 {
    let row_block: int = if yy >= 256 {
        if text_width(cnt.size) == 512 {
            2
        } else {
            1
        }
    } else {
        0
    };
    let block = row_block + if xx >= 256 {
        1int
    } else {
        0
    };
    half_at(
        v.vram,
        cnt.screen_base + (yy / 8) % 32 * 64 + block * SCREEN_BLOCK + (xx % 256) / 8 * 2,
    )
}

/// `p` counted from the other edge of its tile, if `flip`.
pub open spec fn flipped(p: int, flip: bool) -> int {
    if flip {
        7 - p
    } else {
        p
    }
}

/// Pixel `x` of line `y` of text background `bg`.
pub open spec fn text_pixel(io: IoView, v: VideoView, bg: int, y: int, x: int) -> u16 {
    let cnt = bg_control_of(io, bg);
    let hofs = io.read16((reg::BG0HOFS + 4 * bg) as u32) & 0x1FF;
    let vofs = io.read16((reg::BG0VOFS + 4 * bg) as u32) & 0x1FF;
    let xx = (x + hofs) % text_width(cnt.size);
    let yy = (y + vofs) % text_height(cnt.size);
    let entry = text_entry(v, cnt, xx, yy);
    let tile = (entry & 0x3FF) as int;
    let px = flipped(xx % 8, entry & (1u16 << 10) != 0);
    let py = flipped(yy % 8, entry & (1u16 << 11) != 0);
    if cnt.color_256 {
        pixel_8bpp(v, cnt.char_base as int, tile, px, py)
    } else {
        pixel_4bpp(v, cnt.char_base as int, tile, (entry >> 12) as int, px, py)
    }
}

/// Renders line `y` of text background `bg` into `out`.
pub fn render_text(
    io: &IoRegisters,
    video: &VideoMemory,
    bg: usize,
    y: usize,
    out: &mut [u16; 240],
)
    requires
        io.wf(),
        video.wf(),
        bg <= 3,
        y + 0x1FF <= usize::MAX,
    ensures
        final(out)@ == Seq::new(240, |x: int| text_pixel(io@, video@, bg as int, y as int, x)),
{
    let cnt = BgControl::read(io, bg);
    let hofs: usize = (io.read16(reg::BG0HOFS + 4 * bg as u32) & 0x1FF) as usize;
    let vofs: usize = (io.read16(reg::BG0VOFS + 4 * bg as u32) & 0x1FF) as usize;
    let (width, height): (usize, usize) = match cnt.size {
        0 => (256, 256),
        1 => (512, 256),
        2 => (256, 512),
        _ => (512, 512),
    };

    let yy: usize = (y + vofs) % height;
    let ty: usize = yy / 8;
    let py_base: usize = yy % 8;
    // Screen blocks are laid out left-to-right, then top-to-bottom.
    let row_block: usize = if yy >= 256 {
        if width == 512 {
            2
        } else {
            1
        }
    } else {
        0
    };
    let map_row: usize = cnt.screen_base + (ty % 32) * 64;

    for x in 0..SCREEN_WIDTH
        invariant
            video.wf(),
            cnt == bg_control_of(io@, bg as int),
            cnt.char_base <= 0xC000,
            cnt.screen_base <= 0xF800,
            hofs == io@.read16((reg::BG0HOFS + 4 * bg) as u32) & 0x1FF,
            vofs == io@.read16((reg::BG0VOFS + 4 * bg) as u32) & 0x1FF,
            hofs <= 0x1FF,
            width == text_width(cnt.size),
            height == text_height(cnt.size),
            width == 256 || width == 512,
            yy == (y + vofs) % height as int,
            yy < 512,
            py_base == yy % 8,
            row_block == (if yy >= 256 {
                if width == 512 {
                    2int
                } else {
                    1
                }
            } else {
                0
            }),
            row_block <= 2,
            map_row == cnt.screen_base + (yy / 8) % 32 * 64,
            forall|k: int|
                0 <= k < x ==> out@[k] == text_pixel(io@, video@, bg as int, y as int, k),
    {
        let xx: usize = (x + hofs) % width;
        let block: usize = row_block + if xx >= 256 {
            1
        } else {
            0
        };
        let entry_addr: usize = map_row + block * SCREEN_BLOCK + (xx % 256) / 8 * 2;
        let entry: u16 = get16(video.vram.as_slice(), entry_addr);
        proof {
            crate::bits::high_field_facts(0, entry);
        }

        let tile: usize = (entry & 0x3FF) as usize;
        let mut px: usize = xx % 8;
        let mut py: usize = py_base;
        if entry & (1u16 << 10) != 0 {
            px = 7 - px;
        }
        if entry & (1u16 << 11) != 0 {
            py = 7 - py;
        }
        out[x] =
        if cnt.color_256 {
            tile_pixel_8bpp(video, cnt.char_base, tile, px, py)
        } else {
            tile_pixel_4bpp(video, cnt.char_base, tile, (entry >> 12) as usize, px, py)
        };
    }
    assert(out@ =~= Seq::new(240, |x: int| text_pixel(io@, video@, bg as int, y as int, x)));
}

/// The affine parameters of BG2 or BG3.
#[derive(Debug, Clone, Copy, PartialEq, Eq, Structural)]
pub struct AffineParams {
    /// `dx` per screen pixel, 8.8 fixed point.
    pub pa: i32,
    /// `dx` per screen line.
    pub pb: i32,
    /// `dy` per screen pixel.
    pub pc: i32,
    /// `dy` per screen line.
    pub pd: i32,
    /// Reference point, 20.8 fixed point.
    pub x: i32,
    /// Reference point, 20.8 fixed point.
    pub y: i32,
}

/// The affine registers of background `bg` (2 or 3).
pub open spec fn affine_base(bg: int) -> u32 {
    if bg == 2 {
        reg::BG2PA
    } else {
        reg::BG3PA
    }
}

/// A 28-bit signed reference point.
pub open spec fn reference_point(word: u32) -> i32 {
    ((word << 4) as i32) >> 4u32
}

/// The affine parameters of background `bg` (2 or 3).
pub open spec fn affine_params(io: IoView, bg: int) -> AffineParams {
    let base = affine_base(bg);
    AffineParams {
        pa: (io.read16(base) as i16) as i32,
        pb: (io.read16((base + 2) as u32) as i16) as i32,
        pc: (io.read16((base + 4) as u32) as i16) as i32,
        pd: (io.read16((base + 6) as u32) as i16) as i32,
        x: reference_point(io.read32((base + 8) as u32)),
        y: reference_point(io.read32((base + 12) as u32)),
    }
}

impl AffineParams {
    /// Reads the parameters of background `bg` (2 or 3).
    #[must_use]
    pub fn read(io: &IoRegisters, bg: usize) -> (params: Self)
        requires
            io.wf(),
        ensures
            params == affine_params(io@, bg as int),
    {
        let base: u32 = if bg == 2 {
            reg::BG2PA
        } else {
            reg::BG3PA
        };
        Self {
            pa: (io.read16(base) as i16) as i32,
            pb: (io.read16(base + 2) as i16) as i32,
            pc: (io.read16(base + 4) as i16) as i32,
            pd: (io.read16(base + 6) as i16) as i32,
            // 28-bit signed reference points.
            x: ((io.read32(base + 8) << 4) as i32) >> 4u32,
            y: ((io.read32(base + 12) << 4) as i32) >> 4u32,
        }
    }
}

/// The size of an affine background in pixels.
pub open spec fn affine_size(size: u8) -> i32 {
    if size == 0 {
        128
    } else if size == 1 {
        256
    } else if size == 2 {
        512
    } else {
        1024
    }
}

/// `start` after `steps` steps of `step`.
pub open spec fn walked(start: i32, step: i32, steps: int) -> i32
    decreases steps,
{
    if steps <= 0 {
        start
    } else {
        walked(start, step, steps - 1).wrapping_add(step)
    }
}

/// The texture position that an affine background of `size` pixels shows for
/// texture coordinate `t`: wrapped around, or `None` outside.
pub open spec fn affine_coordinate(t: i32, size: i32, wrap: bool) -> Option<int> {
    if wrap {
        Some((t & ((size - 1) as i32)) as int)
    } else if 0 <= t < size {
        Some(t as int)
    } else {
        None
    }
}

/// The colour at texture position `(x, y)` of an affine background.
pub open spec fn affine_texel(v: VideoView, cnt: BgControl, x: int, y: int) -> u16 {
    let tile = v.vram[cnt.screen_base + (y / 8) * (affine_size(cnt.size) as int / 8) + x / 8];
    pixel_8bpp(v, cnt.char_base as int, tile as int, x % 8, y % 8)
}

/// Pixel `x` of line `y` of affine background `bg`.
pub open spec fn affine_pixel(io: IoView, v: VideoView, bg: int, y: usize, x: int) -> u16 {
    let cnt = bg_control_of(io, bg);
    let p = affine_params(io, bg);
    let size = affine_size(cnt.size);
    let tx = walked(p.x.wrapping_add(p.pb.wrapping_mul(y as i32)), p.pa, x) >> 8u32;
    let ty = walked(p.y.wrapping_add(p.pd.wrapping_mul(y as i32)), p.pc, x) >> 8u32;
    match (affine_coordinate(tx, size, cnt.wrap), affine_coordinate(ty, size, cnt.wrap)) {
        (Some(px), Some(py)) => affine_texel(v, cnt, px, py),
        _ => TRANSPARENT,
    }
}

pub(crate) proof fn lemma_wrapped_coordinate(t: i32, m: i32)
    by (bit_vector)
    requires
        m >= 0,
    ensures
        0 <= t & m <= m,
        m == 127 ==> (t as u32) % 128 == (t & m) as u32,
        m == 255 ==> (t as u32) % 256 == (t & m) as u32,
        m == 511 ==> (t as u32) % 512 == (t & m) as u32,
        m == 1023 ==> (t as u32) % 1024 == (t & m) as u32,
        t >= 0 ==> (t as u32) == t,
        t < 0 ==> (t as u32) == t + 0x1_0000_0000,
{
}

/// The texture position for texture coordinate `t`.
fn texture_coordinate(t: i32, size: i32, wrap: bool) -> (position: Option<usize>)
    requires
        128 <= size <= 1024,
    ensures
        match position {
            Some(p) => affine_coordinate(t, size, wrap) == Some(p as int) && p < size,
            None => affine_coordinate(t, size, wrap) is None,
        },
{
    if wrap {
        proof {
            lemma_wrapped_coordinate(t, (size - 1) as i32);
        }
        Some((t & (size - 1)) as usize)
    } else if t < 0 || t >= size {
        None
    } else {
        Some(t as usize)
    }
}

/// Renders line `y` of affine background `bg` into `out`.
pub fn render_affine(
    io: &IoRegisters,
    video: &VideoMemory,
    bg: usize,
    y: usize,
    out: &mut [u16; 240],
)
    requires
        io.wf(),
        video.wf(),
        bg <= 3,
    ensures
        final(out)@ == Seq::new(240, |x: int| affine_pixel(io@, video@, bg as int, y, x)),
{
    let cnt = BgControl::read(io, bg);
    let params = AffineParams::read(io, bg);
    let size: i32 = match cnt.size {
        0 => 128,
        1 => 256,
        2 => 512,
        _ => 1024,
    };
    let tiles_per_row: usize = size as usize / 8;

    // Start of this line in texture space, then walk along PA/PC.
    let mut tx: i32 = params.x.wrapping_add(params.pb.wrapping_mul(y as i32));
    let mut ty: i32 = params.y.wrapping_add(params.pd.wrapping_mul(y as i32));
    let ghost start_x = tx;
    let ghost start_y = ty;

    for x in 0..SCREEN_WIDTH
        invariant
            video.wf(),
            cnt == bg_control_of(io@, bg as int),
            params == affine_params(io@, bg as int),
            cnt.char_base <= 0xC000,
            cnt.screen_base <= 0xF800,
            size == affine_size(cnt.size),
            size == 128 || size == 256 || size == 512 || size == 1024,
            tiles_per_row == size as int / 8,
            start_x == params.x.wrapping_add(params.pb.wrapping_mul(y as i32)),
            start_y == params.y.wrapping_add(params.pd.wrapping_mul(y as i32)),
            tx == walked(start_x, params.pa, x as int),
            ty == walked(start_y, params.pc, x as int),
            forall|k: int| 0 <= k < x ==> out@[k] == affine_pixel(io@, video@, bg as int, y, k),
    {
        let px = texture_coordinate(tx >> 8u32, size, cnt.wrap);
        let py = texture_coordinate(ty >> 8u32, size, cnt.wrap);
        tx = tx.wrapping_add(params.pa);
        ty = ty.wrapping_add(params.pc);
        out[x] =
        match (px, py) {
            (Some(px), Some(py)) => {
                proof {
                    assert((py as int / 8) * tiles_per_row <= 127 * 128) by (nonlinear_arith)
                        requires
                            0 <= py < 1024,
                            0 <= tiles_per_row <= 128,
                    ;
                }
                let map: usize = cnt.screen_base + (py / 8) * tiles_per_row + px / 8;
                let tile: usize = video.vram[map] as usize;
                tile_pixel_8bpp(video, cnt.char_base, tile, px % 8, py % 8)
            },
            _ => TRANSPARENT,
        };
    }
    assert(out@ =~= Seq::new(240, |x: int| affine_pixel(io@, video@, bg as int, y, x)));
}

} // verus!
