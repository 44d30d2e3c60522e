//! Sprite (OBJ) rendering from OAM.
//!
//! All 128 objects are scanned per line. The OBJ layer keeps, per pixel,
//! the first opaque sprite in OAM order together with its priority;
//! among sprites OAM order wins outright, the priority attribute only
//! matters against backgrounds (this is the real hardware behaviour).

use vstd::prelude::*;

use crate::bytes::{get16, half_at};
use crate::memory::io::{reg, IoRegisters};
use crate::memory::video::{vram_position, VideoMemory, VideoView};
use crate::ppu::tiled::TRANSPARENT;

verus! {

broadcast use crate::bits::group_mask_bounds;

/// Start of object tile data in VRAM.
pub const OBJ_VRAM_BASE: usize = 0x1_0000;
/// Object palette offset in palette RAM.
pub const OBJ_PALETTE_BASE: usize = 0x200;
/// Number of OAM entries.
pub const OBJ_COUNT: usize = 128;

/// One line of the OBJ layer.
#[derive(Debug, Clone, Copy)]
pub struct ObjLine {
    /// Colour of each pixel, or `TRANSPARENT`.
    pub colors: [u16; 240],
    /// Priority of the sprite that owns each pixel.
    pub priorities: [u8; 240],
    /// Whether that sprite is semi-transparent.
    pub semi_transparent: [bool; 240],
    /// Whether each pixel is inside the object window.
    pub window: [bool; 240],
}

/// The mathematical line of the OBJ layer.
#[verifier::ext_equal]
pub struct ObjLineView {
    /// Colour of each pixel, or `TRANSPARENT`.
    pub colors: Seq<u16>,
    /// Priority of the sprite that owns each pixel.
    pub priorities: Seq<u8>,
    /// Whether that sprite is semi-transparent.
    pub semi_transparent: Seq<bool>,
    /// Whether each pixel is inside the object window.
    pub window: Seq<bool>,
}

impl View for ObjLine {
    type V = ObjLineView;

    open spec fn view(&self) -> ObjLineView {
        ObjLineView {
            colors: self.colors@,
            priorities: self.priorities@,
            semi_transparent: self.semi_transparent@,
            window: self.window@,
        }
    }
}

/// A line without sprites.
pub open spec fn empty_line() -> ObjLineView {
    ObjLineView {
        colors: Seq::new(240, |x: int| TRANSPARENT),
        priorities: Seq::new(240, |x: int| 0u8),
        semi_transparent: Seq::new(240, |x: int| false),
        window: Seq::new(240, |x: int| false),
    }
}

impl Default for ObjLine {
    fn default() -> (line: Self)
        ensures
            line@ == empty_line(),
    {
        let line = Self {
            colors: [TRANSPARENT;240],
            priorities: [0;240],
            semi_transparent: [false;240],
            window: [false;240],
        };
        assert(line@ =~= empty_line());
        line
    }
}

/// The size in pixels for a `(shape, size)` combination.
pub open spec fn sprite_size(shape: u16, size: u16) -> (int, int) {
    if shape == 0 {
        if size == 0 {
            (8, 8)
        } else if size == 1 {
            (16, 16)
        } else if size == 2 {
            (32, 32)
        } else {
            (64, 64)
        }
    } else if shape == 1 {
        if size == 0 {
            (16, 8)
        } else if size == 1 {
            (32, 8)
        } else if size == 2 {
            (32, 16)
        } else {
            (64, 32)
        }
    } else {
        if size == 0 {
            (8, 16)
        } else if size == 1 {
            (8, 32)
        } else if size == 2 {
            (16, 32)
        } else {
            (32, 64)
        }
    }
}

/// `(width, height)` for each `(shape, size)` combination.
fn size_of_sprite(shape: u16, size: u16) -> (out: (usize, usize))
    ensures
        (out.0 as int, out.1 as int) == sprite_size(shape, size),
{
    match (shape, size) {
        (0, 0) => (8, 8),
        (0, 1) => (16, 16),
        (0, 2) => (32, 32),
        (0, _) => (64, 64),
        (1, 0) => (16, 8),
        (1, 1) => (32, 8),
        (1, 2) => (32, 16),
        (1, _) => (64, 32),
        (_, 0) => (8, 16),
        (_, 1) => (8, 32),
        (_, 2) => (16, 32),
        (_, _) => (32, 64),
    }
}

/// A decoded OAM entry.
#[derive(Debug, Clone, Copy, PartialEq, Eq, Structural)]
pub struct Object {
    /// Left edge on the screen.
    pub x: i32,
    /// Top edge on the screen.
    pub y: i32,
    /// Width in pixels.
    pub width: usize,
    /// Height in pixels.
    pub height: usize,
    /// Affine group, for a rotated or scaled object.
    pub affine: Option<usize>,
    /// Whether the bounding box is doubled.
    pub double_size: bool,
    /// Mirrored left to right.
    pub hflip: bool,
    /// Mirrored top to bottom.
    pub vflip: bool,
    /// 256-colour (8bpp) tiles.
    pub color_256: bool,
    /// First tile number.
    pub tile: usize,
    /// Drawing priority against backgrounds.
    pub priority: u8,
    /// 16-colour palette.
    pub palette: usize,
    /// Mode 1: blends with what lies below.
    pub semi_transparent: bool,
    /// Mode 2 (object window): contributes no pixels.
    pub hidden: bool,
}

impl Object {
    /// Sizes and numbers are within their attribute fields.
    pub open spec fn wf(self) -> bool {
        &&& 8 <= self.width <= 64
        &&& self.width % 8 == 0
        &&& 8 <= self.height <= 64
        &&& -256 <= self.x <= 255
        &&& -256 <= self.y <= 255
        &&& self.tile <= 0x3FF
        &&& self.palette <= 15
        &&& self.affine matches Some(group) ==> group <= 31
    }

    /// Width of the screen-space bounding box.
    pub open spec fn box_width(self) -> int {
        if self.double_size {
            2 * self.width
        } else {
            self.width as int
        }
    }

    /// Height of the screen-space bounding box.
    pub open spec fn box_height(self) -> int {
        if self.double_size {
            2 * self.height
        } else {
            self.height as int
        }
    }
}

/// The attributes `a0`, `a1`, `a2` decoded, or `None` for a disabled object
/// or a prohibited shape. Y is 8-bit: objects that would extend past the
/// bottom wrap to the top. X is 9-bit signed.
pub open spec fn decoded(a0: u16, a1: u16, a2: u16) -> Option<Object> {
    let rotation = a0 & (1u16 << 8) != 0;
    let bit9 = a0 & (1u16 << 9) != 0;
    let shape = a0 >> 14;
    let (width, height) = sprite_size(shape, a1 >> 14);
    let box_height = if rotation && bit9 {
        2 * height
    } else {
        height
    };
    let y = (a0 & 0xFF) as int;
    if (!rotation && bit9) || shape == 3 {
        None
    } else {
        Some(
            Object {
                x: (((a1 & 0x1FF) as i32) << 23u32) >> 23u32,
                y: if y + box_height > 256 {
                    (y - 256) as i32
                } else {
                    y as i32
                },
                width: width as usize,
                height: height as usize,
                affine: if rotation {
                    Some(((a1 >> 9) & 0x1F) as usize)
                } else {
                    None
                },
                double_size: rotation && bit9,
                hflip: !rotation && a1 & (1u16 << 12) != 0,
                vflip: !rotation && a1 & (1u16 << 13) != 0,
                color_256: a0 & (1u16 << 13) != 0,
                tile: (a2 & 0x3FF) as usize,
                priority: ((a2 >> 10) & 0b11) as u8,
                palette: (a2 >> 12) as usize,
                semi_transparent: (a0 >> 10) & 0b11 == 1,
                hidden: (a0 >> 10) & 0b11 == 2,
            },
        )
    }
}

/// OAM entry `index`.
pub open spec fn object_of(v: VideoView, index: int) -> Option<Object> {
    decoded(
        half_at(v.oam, 8 * index),
        half_at(v.oam, 8 * index + 2),
        half_at(v.oam, 8 * index + 4),
    )
}

pub(crate) proof fn lemma_attribute_fields(a1: u16, a2: u16)
    by (bit_vector)
    ensures
        a2 >> 12 <= 15,
        -256 <= (((a1 & 0x1FF) as i32) << 23u32) >> 23u32,
        (((a1 & 0x1FF) as i32) << 23u32) >> 23u32 <= 255,
        a1 & 0x1FF < 256 ==> (((a1 & 0x1FF) as i32) << 23u32) >> 23u32 == (a1 & 0x1FF) as i32,
        a1 & 0x1FF >= 256 ==> (((a1 & 0x1FF) as i32) << 23u32) >> 23u32 == (a1 & 0x1FF) as i32
            - 512,
{
}

impl Object {
    /// Decodes OAM entry `index`.
    fn read(video: &VideoMemory, index: usize) -> (object: Option<Self>)
        requires
            video.wf(),
            index < OBJ_COUNT,
        ensures
            object == object_of(video@, index as int),
            object matches Some(o) ==> o.wf(),
    {
        let oam = video.oam.as_slice();
        let a0: u16 = get16(oam, 8 * index);
        let a1: u16 = get16(oam, 8 * index + 2);
        let a2: u16 = get16(oam, 8 * index + 4);
        proof {
            lemma_attribute_fields(a1, a2);
        }

        let rotation = a0 & (1u16 << 8) != 0;
        if !rotation && a0 & (1u16 << 9) != 0 {
            return None;  // disabled
        }
        let shape: u16 = a0 >> 14;
        if shape == 3 {
            return None;  // prohibited
        }
        let (width, height) = size_of_sprite(shape, a1 >> 14);

        // Y is 8-bit; objects that would extend past the bottom wrap to
        // the top, so treat large values as negative.
        let mut y: i32 = (a0 & 0xFF) as i32;
        let double_size = rotation && a0 & (1u16 << 9) != 0;
        let box_height: usize = if double_size {
            height * 2
        } else {
            height
        };
        if y + box_height as i32 > 256 {
            y = y - 256;
        }
        // X is 9-bit signed.
        let x: i32 = (((a1 & 0x1FF) as i32) << 23u32) >> 23u32;

        Some(
            Self {
                x,
                y,
                width,
                height,
                affine: if rotation {
                    Some(((a1 >> 9) & 0x1F) as usize)
                } else {
                    None
                },
                double_size,
                hflip: !rotation && a1 & (1u16 << 12) != 0,
                vflip: !rotation && a1 & (1u16 << 13) != 0,
                color_256: a0 & (1u16 << 13) != 0,
                tile: (a2 & 0x3FF) as usize,
                priority: ((a2 >> 10) & 0b11) as u8,
                palette: (a2 >> 12) as usize,
                semi_transparent: (a0 >> 10) & 0b11 == 1,
                hidden: (a0 >> 10) & 0b11 == 2,
            },
        )
    }

    /// Screen-space bounding box size.
    fn box_size(&self) -> (out: (usize, usize))
        requires
            self.wf(),
        ensures
            out.0 == self.box_width(),
            out.1 == self.box_height(),
            out.0 <= 128,
            out.1 <= 128,
    {
        if self.double_size {
            (self.width * 2, self.height * 2)
        } else {
            (self.width, self.height)
        }
    }
}

/// Entry `i` (PA–PD) of the affine matrix stored in OAM group `group`.
pub open spec fn matrix_entry(v: VideoView, group: int, i: int) -> i32 {
    (half_at(v.oam, 32 * group + 6 + 8 * i) as i16) as i32
}

/// Reads the affine matrix stored in OAM group `index`.
fn affine_params(video: &VideoMemory, index: usize) -> (matrix: [i32; 4])
    requires
        video.wf(),
        index <= 31,
    ensures
        matrix@ == Seq::new(4, |i: int| matrix_entry(video@, index as int, i)),
        forall|i: int| 0 <= i < 4 ==> -0x8000 <= #[trigger] matrix@[i] <= 0x7FFF,
{
    let oam = video.oam.as_slice();
    let base: usize = index * 32 + 6;
    let pa: i32 = (get16(oam, base) as i16) as i32;
    let pb: i32 = (get16(oam, base + 8) as i16) as i32;
    let pc: i32 = (get16(oam, base + 16) as i16) as i32;
    let pd: i32 = (get16(oam, base + 24) as i16) as i32;
    let matrix = [pa, pb, pc, pd];
    assert(matrix@ =~= Seq::new(4, |i: int| matrix_entry(video@, index as int, i)));
    matrix
}

/// The texture coordinate `a * dx + b * dy` (8.8), from the middle of the
/// texture.
pub open spec fn rotated(a: i32, dx: int, b: i32, dy: int, size: int) -> int {
    (((a * dx + b * dy) as i32) >> 8u32) + size / 2
}

/// The texture position that object `o` shows at screen position `(x, y)`,
/// if it reaches there.
pub open spec fn texture_position(v: VideoView, o: Object, x: int, y: int) -> Option<(int, int)> {
    let ix = x - o.x;
    let iy = y - o.y;
    if !(0 <= ix < o.box_width() && 0 <= iy < o.box_height()) {
        None
    } else {
        match o.affine {
            Some(group) => {
                let dx = ix - o.box_width() / 2;
                let dy = iy - o.box_height() / 2;
                let tx = rotated(
                    matrix_entry(v, group as int, 0),
                    dx,
                    matrix_entry(v, group as int, 1),
                    dy,
                    o.width as int,
                );
                let ty = rotated(
                    matrix_entry(v, group as int, 2),
                    dx,
                    matrix_entry(v, group as int, 3),
                    dy,
                    o.height as int,
                );
                if 0 <= tx < o.width && 0 <= ty < o.height {
                    Some((tx, ty))
                } else {
                    None
                }
            },
            None => Some(
                (
                    if o.hflip {
                        o.width - 1 - ix
                    } else {
                        ix
                    },
                    if o.vflip {
                        o.height - 1 - iy
                    } else {
                        iy
                    },
                ),
            ),
        }
    }
}

/// The tile number that texel `(tx, ty)` of `o` lies in. Tile numbers count
/// 32-byte units; 8bpp tiles occupy two.
pub open spec fn tile_number(o: Object, one_dimensional: bool, tx: int, ty: int) -> int {
    let per_tile: int = if o.color_256 {
        2
    } else {
        1
    };
    let row_stride = if one_dimensional {
        o.width as int / 8 * per_tile
    } else {
        32
    };
    o.tile + ty / 8 * row_stride + tx / 8 * per_tile
}

/// The palette index of texel `(tx, ty)` of `o`, whose tile data starts at
/// `offset`.
pub open spec fn texel_index(v: VideoView, o: Object, offset: int, tx: int, ty: int) -> u8 {
    if o.color_256 {
        v.vram[vram_position((offset + (ty % 8) * 8 + tx % 8) as u32)]
    } else {
        let byte = v.vram[vram_position((offset + (ty % 8) * 4 + (tx % 8) / 2) as u32)];
        if tx % 2 == 0 {
            byte & 0xF
        } else {
            byte >> 4
        }
    }
}

/// Colour of texel `(tx, ty)` of `o`, or `TRANSPARENT`. Bitmap modes use the
/// lower half of object VRAM for the frame.
pub open spec fn texel_color(
    v: VideoView,
    o: Object,
    one_dimensional: bool,
    bitmap_mode: bool,
    tx: int,
    ty: int,
) -> u16 {
    let tile = tile_number(o, one_dimensional, tx, ty);
    let offset = OBJ_VRAM_BASE + (tile % 0x400) * 32;
    let index = texel_index(v, o, offset, tx, ty);
    let entry = if o.color_256 {
        index as int
    } else {
        o.palette * 16 + index
    };
    if (bitmap_mode && tile < 512) || index == 0 {
        TRANSPARENT
    } else {
        half_at(v.palette, OBJ_PALETTE_BASE + entry * 2) & 0x7FFF
    }
}

/// Colour of texel `(tx, ty)` of `obj`, or `TRANSPARENT`.
#[inline]
fn texel(
    video: &VideoMemory,
    obj: &Object,
    one_dimensional: bool,
    bitmap_mode: bool,
    tx: usize,
    ty: usize,
) -> (color: u16)
    requires
        video.wf(),
        obj.wf(),
        tx < obj.width,
        ty < obj.height,
    ensures
        color == texel_color(
            video@,
            *obj,
            one_dimensional,
            bitmap_mode,
            tx as int,
            ty as int,
        ),
{
    let tile_x: usize = tx / 8;
    let tile_y: usize = ty / 8;
    // Tile numbers count 32-byte units; 8bpp tiles occupy two.
    let per_tile: usize = if obj.color_256 {
        2
    } else {
        1
    };
    let row_stride: usize = if one_dimensional {
        obj.width / 8 * per_tile
    } else {
        32
    };
    proof {
        assert(0 <= tile_y * row_stride <= 7 * 32) by (nonlinear_arith)
            requires
                0 <= tile_y <= 7,
                0 <= row_stride <= 32,
        ;
    }
    let tile: usize = obj.tile + tile_y * row_stride + tile_x * per_tile;
    // Bitmap modes use the lower half of object VRAM for the frame.
    if bitmap_mode && tile < 512 {
        return TRANSPARENT;
    }
    let offset: usize = OBJ_VRAM_BASE + (tile % 0x400) * 32;
    let px: usize = tx % 8;
    let py: usize = ty % 8;

    let index: u8 = if obj.color_256 {
        video.vram[VideoMemory::vram_index((offset + py * 8 + px) as u32)]
    } else {
        let byte: u8 = video.vram[VideoMemory::vram_index((offset + py * 4 + px / 2) as u32)];
        proof {
            crate::bits::high_field_facts(byte, 0);
        }
        if px % 2 == 0 {
            byte & 0xF
        } else {
            byte >> 4
        }
    };
    if index == 0 {
        return TRANSPARENT;
    }
    let entry: usize = if obj.color_256 {
        index as usize
    } else {
        obj.palette * 16 + index as usize
    };
    get16(video.palette.as_slice(), OBJ_PALETTE_BASE + entry * 2) & 0x7FFF
}

/// Colour that OAM entry `index` shows at `(x, y)` when `DISPCNT` is
/// `dispcnt`, or `TRANSPARENT`.
pub open spec fn object_color(v: VideoView, dispcnt: u16, index: int, x: int, y: int) -> u16 {
    match object_of(v, index) {
        Some(o) => match texture_position(v, o, x, y) {
            Some((tx, ty)) => texel_color(
                v,
                o,
                dispcnt & (1u16 << 6) != 0,
                dispcnt & 0x7 >= 3,
                tx,
                ty,
            ),
            None => TRANSPARENT,
        },
        None => TRANSPARENT,
    }
}

/// Whether OAM entry `index` belongs to the object window.
pub open spec fn is_window_object(v: VideoView, index: int) -> bool {
    object_of(v, index) matches Some(o) && o.hidden
}

/// The first of the OAM entries below `upto` that draws at `(x, y)`.
pub open spec fn front_object(v: VideoView, dispcnt: u16, x: int, y: int, upto: int) -> Option<int>
    decreases upto,
{
    if upto <= 0 {
        None
    } else {
        let earlier = front_object(v, dispcnt, x, y, upto - 1);
        let index = upto - 1;
        if earlier is Some {
            earlier
        } else if !is_window_object(v, index) && object_color(v, dispcnt, index, x, y)
            != TRANSPARENT {
            Some(index)
        } else {
            None
        }
    }
}

/// Whether one of the OAM entries below `upto` puts `(x, y)` in the object
/// window.
pub open spec fn in_object_window(v: VideoView, dispcnt: u16, x: int, y: int, upto: int) -> bool
    decreases upto,
{
    upto > 0 && (in_object_window(v, dispcnt, x, y, upto - 1) || (is_window_object(v, upto - 1)
        && object_color(v, dispcnt, upto - 1, x, y) != TRANSPARENT))
}

/// What pixel `x` of `line` holds after the OAM entries below `upto`.
pub open spec fn pixel_scanned(
    line: ObjLineView,
    v: VideoView,
    dispcnt: u16,
    x: int,
    y: int,
    upto: int,
) -> bool {
    &&& line.window[x] == in_object_window(v, dispcnt, x, y, upto)
    &&& match front_object(v, dispcnt, x, y, upto) {
        Some(index) => {
            let o = object_of(v, index)->0;
            &&& line.colors[x] == object_color(v, dispcnt, index, x, y)
            &&& line.colors[x] != TRANSPARENT
            &&& line.priorities[x] == o.priority
            &&& line.semi_transparent[x] == o.semi_transparent
        },
        None => {
            &&& line.colors[x] == TRANSPARENT
            &&& line.priorities[x] == 0
            &&& !line.semi_transparent[x]
        },
    }
}

/// Line `y` of the OBJ layer.
pub open spec fn object_line(v: VideoView, dispcnt: u16, y: int) -> ObjLineView {
    let front = |x: int| front_object(v, dispcnt, x, y, 128);
    ObjLineView {
        colors: Seq::new(
            240,
            |x: int|
                match front(x) {
                    Some(index) => object_color(v, dispcnt, index, x, y),
                    None => TRANSPARENT,
                },
        ),
        priorities: Seq::new(
            240,
            |x: int|
                match front(x) {
                    Some(index) => (object_of(v, index)->0).priority,
                    None => 0,
                },
        ),
        semi_transparent: Seq::new(
            240,
            |x: int|
                match front(x) {
                    Some(index) => (object_of(v, index)->0).semi_transparent,
                    None => false,
                },
        ),
        window: Seq::new(240, |x: int| in_object_window(v, dispcnt, x, y, 128)),
    }
}

impl Object {
    /// The texture position that column `ix` of row `iy` of the bounding
    /// box shows, if any.
    fn texture_position(&self, matrix: Option<[i32; 4]>, ix: usize, iy: usize, Ghost(
        v,
    ): Ghost<VideoView>) -> (position: Option<(usize, usize)>)
        requires
            self.wf(),
            ix < self.box_width(),
            iy < self.box_height(),
            self.affine is Some ==> matrix is Some,
            self.affine is None ==> matrix is None && !self.double_size,
            matrix matches Some(m) ==> m@ == Seq::new(
                4,
                |i: int| matrix_entry(v, self.affine->0 as int, i),
            ) && forall|i: int| 0 <= i < 4 ==> -0x8000 <= #[trigger] m@[i] <= 0x7FFF,
        ensures
            match position {
                Some((tx, ty)) => tx < self.width && ty < self.height && texture_position(
                    v,
                    *self,
                    self.x + ix,
                    self.y + iy,
                ) == Some((tx as int, ty as int)),
                None => texture_position(v, *self, self.x + ix, self.y + iy) is None,
            },
    {
        match matrix {
            Some(m) => {
                let (box_w, box_h) = self.box_size();
                let dx: i32 = ix as i32 - (box_w / 2) as i32;
                let dy: i32 = iy as i32 - (box_h / 2) as i32;
                let (pa, pb, pc, pd) = (m[0], m[1], m[2], m[3]);
                proof {
                    lemma_matrix_product(pa, dx);
                    lemma_matrix_product(pb, dy);
                    lemma_matrix_product(pc, dx);
                    lemma_matrix_product(pd, dy);
                    lemma_shift_bounds((pa * dx + pb * dy) as i32);
                    lemma_shift_bounds((pc * dx + pd * dy) as i32);
                }
                let tx: i32 = ((pa * dx + pb * dy) >> 8u32) + (self.width / 2) as i32;
                let ty: i32 = ((pc * dx + pd * dy) >> 8u32) + (self.height / 2) as i32;
                if tx < 0 || ty < 0 || tx >= self.width as i32 || ty >= self.height as i32 {
                    None
                } else {
                    Some((tx as usize, ty as usize))
                }
            },
            None => {
                let tx: usize = if self.hflip {
                    self.width - 1 - ix
                } else {
                    ix
                };
                let ty: usize = if self.vflip {
                    self.height - 1 - iy
                } else {
                    iy
                };
                Some((tx, ty))
            },
        }
    }
}

proof fn lemma_matrix_product(p: i32, d: i32)
    requires
        -0x8000 <= p <= 0x7FFF,
        -128 <= d <= 128,
    ensures
        -0x40_0000 <= p * d <= 0x40_0000,
{
    assert(-0x40_0000 <= p * d <= 0x40_0000) by (nonlinear_arith)
        requires
            -0x8000 <= p <= 0x7FFF,
            -128 <= d <= 128,
    ;
}

pub(crate) proof fn lemma_shift_bounds(t: i32)
    by (bit_vector)
    ensures
        -0x80_0000 <= t >> 8u32,
        t >> 8u32 <= 0x7F_FFFF,
        256 * (t >> 8u32) <= t,
        t < 256 * (t >> 8u32) + 256,
{
}

/// Only objects that rotate are doubled.
proof fn lemma_double_size_is_affine(v: VideoView, index: int)
    ensures
        object_of(v, index) matches Some(o) ==> (o.affine is None ==> !o.double_size),
{
}

/// What `line` holds after the OAM entries below `upto`.
pub open spec fn line_scanned(
    line: ObjLineView,
    v: VideoView,
    dispcnt: u16,
    y: int,
    upto: int,
) -> bool {
    forall|x: int| 0 <= x < 240 ==> #[trigger] pixel_scanned(line, v, dispcnt, x, y, upto)
}

/// What `line` holds while entry `index`, which starts at `left`, has been
/// drawn for `done` columns.
pub open spec fn line_partly_scanned(
    line: ObjLineView,
    v: VideoView,
    dispcnt: u16,
    y: int,
    left: int,
    done: int,
    index: int,
) -> bool {
    forall|x: int|
        0 <= x < 240 ==> #[trigger] pixel_scanned(
            line,
            v,
            dispcnt,
            x,
            y,
            scanned_upto(left, done, x, index),
        )
}

/// Before the first entry the line is empty.
proof fn lemma_empty(v: VideoView, dispcnt: u16, y: int)
    ensures
        line_scanned(empty_line(), v, dispcnt, y, 0),
{
}

/// An absent object changes nothing.
proof fn lemma_absent(line: ObjLineView, v: VideoView, dispcnt: u16, y: int, index: int)
    requires
        0 <= index,
        object_of(v, index) is None,
        line_scanned(line, v, dispcnt, y, index),
    ensures
        line_scanned(line, v, dispcnt, y, index + 1),
{
    assert forall|x: int| 0 <= x < 240 implies #[trigger] pixel_scanned(
        line,
        v,
        dispcnt,
        x,
        y,
        index + 1,
    ) by {
        assert(pixel_scanned(line, v, dispcnt, x, y, index));
    }
}

/// An object that is not on line `y` changes nothing.
proof fn lemma_misses(
    line: ObjLineView,
    v: VideoView,
    dispcnt: u16,
    y: int,
    obj: Object,
    index: int,
)
    requires
        0 <= index,
        object_of(v, index) == Some(obj),
        !(0 <= y - obj.y < obj.box_height()),
        line_scanned(line, v, dispcnt, y, index),
    ensures
        line_scanned(line, v, dispcnt, y, index + 1),
{
    assert forall|x: int| 0 <= x < 240 implies #[trigger] pixel_scanned(
        line,
        v,
        dispcnt,
        x,
        y,
        index + 1,
    ) by {
        assert(pixel_scanned(line, v, dispcnt, x, y, index));
        assert(object_color(v, dispcnt, index, x, y) == TRANSPARENT);
    }
}

/// The column to be drawn next holds what the earlier entries left there.
proof fn lemma_next_column(
    line: ObjLineView,
    v: VideoView,
    dispcnt: u16,
    y: int,
    left: int,
    done: int,
    index: int,
)
    requires
        line_partly_scanned(line, v, dispcnt, y, left, done, index),
        0 <= left + done < 240,
    ensures
        pixel_scanned(line, v, dispcnt, left + done, y, index),
{
    let x = left + done;
    assert(pixel_scanned(line, v, dispcnt, x, y, scanned_upto(left, done, x, index)));
}

/// Drawing one column leaves the others as they were.
proof fn lemma_column_done(
    before: ObjLineView,
    after: ObjLineView,
    v: VideoView,
    dispcnt: u16,
    y: int,
    left: int,
    done: int,
    index: int,
)
    requires
        0 <= done,
        line_partly_scanned(before, v, dispcnt, y, left, done, index),
        0 <= left + done < 240 ==> pixel_scanned(after, v, dispcnt, left + done, y, index + 1),
        agree_except(after, before, left + done),
    ensures
        line_partly_scanned(after, v, dispcnt, y, left, done + 1, index),
{
    assert forall|x: int| 0 <= x < 240 implies #[trigger] pixel_scanned(
        after,
        v,
        dispcnt,
        x,
        y,
        scanned_upto(left, done + 1, x, index),
    ) by {
        if x != left + done {
            assert(pixel_scanned(before, v, dispcnt, x, y, scanned_upto(left, done, x, index)));
        }
    }
}

/// When every column has been drawn, so has the object.
proof fn lemma_row_done(
    line: ObjLineView,
    v: VideoView,
    dispcnt: u16,
    y: int,
    obj: Object,
    index: int,
)
    requires
        0 <= index,
        object_of(v, index) == Some(obj),
        line_partly_scanned(line, v, dispcnt, y, obj.x as int, obj.box_width(), index),
    ensures
        line_scanned(line, v, dispcnt, y, index + 1),
{
    assert forall|x: int| 0 <= x < 240 implies #[trigger] pixel_scanned(
        line,
        v,
        dispcnt,
        x,
        y,
        index + 1,
    ) by {
        let bound = scanned_upto(obj.x as int, obj.box_width(), x, index);
        assert(pixel_scanned(line, v, dispcnt, x, y, bound));
        if bound == index {
            assert(object_color(v, dispcnt, index, x, y) == TRANSPARENT);
        }
    }
}

/// How many OAM entries have been scanned at pixel `x`, when `done` columns
/// of entry `index`, which starts at `left`, have been drawn.
pub open spec fn scanned_upto(left: int, done: int, x: int, index: int) -> int {
    if left <= x < left + done {
        index + 1
    } else {
        index
    }
}

/// Whether two lines agree everywhere but at pixel `at`.
pub open spec fn agree_except(a: ObjLineView, b: ObjLineView, at: int) -> bool {
    forall|x: int|
        0 <= x < 240 && x != at ==> a.colors[x] == b.colors[x] && a.priorities[x]
            == b.priorities[x] && a.semi_transparent[x] == b.semi_transparent[x] && a.window[x]
            == b.window[x]
}

/// Puts a pixel of object `index` into the line, unless an earlier object
/// owns it.
fn put_pixel(
    line: &mut ObjLine,
    obj: &Object,
    x: usize,
    color: u16,
    Ghost(v): Ghost<VideoView>,
    Ghost(dispcnt): Ghost<u16>,
    Ghost(y): Ghost<int>,
    Ghost(index): Ghost<int>,
)
    requires
        x < 240,
        index >= 0,
        object_of(v, index) == Some(*obj),
        color == object_color(v, dispcnt, index, x as int, y),
        pixel_scanned(old(line)@, v, dispcnt, x as int, y, index),
    ensures
        pixel_scanned(final(line)@, v, dispcnt, x as int, y, index + 1),
        agree_except(final(line)@, old(line)@, x as int),
{
    if color != TRANSPARENT {
        if obj.hidden {
            line.window[x] = true;
        } else if line.colors[x] == TRANSPARENT {
            // No earlier object owns this pixel.
            line.colors[x] = color;
            line.priorities[x] = obj.priority;
            line.semi_transparent[x] = obj.semi_transparent;
        }
    }
}

/// Draws one object into the line.
#[verifier::rlimit(50)]
fn draw_object(
    video: &VideoMemory,
    dispcnt: u16,
    index: usize,
    obj: &Object,
    y: i32,
    line: &mut ObjLine,
)
    requires
        video.wf(),
        index < OBJ_COUNT,
        object_of(video@, index as int) == Some(*obj),
        obj.wf(),
        line_scanned(old(line)@, video@, dispcnt, y as int, index as int),
    ensures
        line_scanned(final(line)@, video@, dispcnt, y as int, index + 1),
{
    let one_dimensional = dispcnt & (1u16 << 6) != 0;
    let bitmap_mode = dispcnt & 0x7 >= 3;
    let (box_w, box_h) = obj.box_size();
    let ghost v = video@;
    proof {
        lemma_double_size_is_affine(v, index as int);
    }
    if y < obj.y || y >= obj.y + box_h as i32 {
        proof {
            lemma_misses(line@, v, dispcnt, y as int, *obj, index as int);
        }
        return;
    }
    let iy: usize = (y - obj.y) as usize;
    let matrix = match obj.affine {
        Some(group) => Some(affine_params(video, group)),
        None => None,
    };
    for ix in 0..box_w
        invariant
            video.wf(),
            v == video@,
            index < OBJ_COUNT,
            object_of(v, index as int) == Some(*obj),
            obj.wf(),
            one_dimensional == (dispcnt & (1u16 << 6) != 0),
            bitmap_mode == (dispcnt & 0x7 >= 3),
            box_w == obj.box_width(),
            box_h == obj.box_height(),
            box_w <= 128,
            iy < box_h,
            iy == y - obj.y,
            obj.affine is Some ==> matrix is Some,
            obj.affine is None ==> matrix is None && !obj.double_size,
            matrix matches Some(m) ==> m@ == Seq::new(
                4,
                |i: int| matrix_entry(v, obj.affine->0 as int, i),
            ) && forall|i: int| 0 <= i < 4 ==> -0x8000 <= #[trigger] m@[i] <= 0x7FFF,
            line_partly_scanned(
                line@,
                v,
                dispcnt,
                y as int,
                obj.x as int,
                ix as int,
                index as int,
            ),
    {
        let sx: i32 = obj.x + ix as i32;
        let ghost before = line@;
        let position = obj.texture_position(matrix, ix, iy, Ghost(v));
        if sx >= 0 && sx < 240 {
            let sx: usize = sx as usize;
            proof {
                lemma_next_column(
                    before,
                    v,
                    dispcnt,
                    y as int,
                    obj.x as int,
                    ix as int,
                    index as int,
                );
            }
            let color: u16 = match position {
                Some((tx, ty)) => texel(video, obj, one_dimensional, bitmap_mode, tx, ty),
                None => TRANSPARENT,
            };
            assert(color == object_color(v, dispcnt, index as int, sx as int, y as int));
            put_pixel(
                line,
                obj,
                sx,
                color,
                Ghost(v),
                Ghost(dispcnt),
                Ghost(y as int),
                Ghost(index as int),
            );
        }
        proof {
            lemma_column_done(
                before,
                line@,
                v,
                dispcnt,
                y as int,
                obj.x as int,
                ix as int,
                index as int,
            );
        }
    }
    proof {
        lemma_row_done(line@, v, dispcnt, y as int, *obj, index as int);
    }
}

/// Renders line `y` of the OBJ layer: per pixel the colour, priority and
/// blending of the first opaque sprite, and the object window.
pub fn render_line(io: &IoRegisters, video: &VideoMemory, y: usize, line: &mut ObjLine)
    requires
        io.wf(),
        video.wf(),
    ensures
        final(line)@ == object_line(video@, io@.read16(reg::DISPCNT), (y as i32) as int),
{
    *line = ObjLine::default();
    let y: i32 = y as i32;
    let dispcnt: u16 = io.read16(reg::DISPCNT);
    proof {
        lemma_empty(video@, dispcnt, y as int);
    }
    for index in 0..OBJ_COUNT
        invariant
            video.wf(),
            line_scanned(line@, video@, dispcnt, y as int, index as int),
    {
        match Object::read(video, index) {
            Some(obj) => draw_object(video, dispcnt, index, &obj, y, line),
            None => {
                proof {
                    lemma_absent(line@, video@, dispcnt, y as int, index as int);
                }
            },
        }
    }
    proof {
        let expected = object_line(video@, dispcnt, y as int);
        assert forall|x: int| 0 <= x < 240 implies line@.colors[x] == expected.colors[x]
            && line@.priorities[x] == expected.priorities[x] && line@.semi_transparent[x]
            == expected.semi_transparent[x] && line@.window[x] == expected.window[x] by {
            assert(pixel_scanned(line@, video@, dispcnt, x, y as int, 128));
        }
        assert(line@ =~= expected);
    }
}

} // verus!
