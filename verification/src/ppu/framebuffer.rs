//! The 240×160 output image.

use vstd::prelude::*;
use vstd::slice::slice_subrange;

verus! {

broadcast use crate::bits::group_mask_bounds;

/// Screen width in pixels.
pub const SCREEN_WIDTH: usize = 240;
/// Screen height in pixels.
pub const SCREEN_HEIGHT: usize = 160;

/// A packed `0xRRGGBBAA` pixel.
pub type Rgba = u32;

/// The low 5 bits of `c` expanded to 8 bits.
pub open spec fn expanded(c: u16) -> u32 {
    let low = (c & 0x1F) as u32;
    (low << 3) | (low >> 2)
}

/// `color` as opaque RGBA8.
pub open spec fn rgba_of(color: u16) -> u32 {
    (expanded(color) << 24) | (expanded(color >> 5) << 16) | (expanded(color >> 10) << 8) | 0xFF
}

/// Converts a GBA 15-bit `xBBBBBGGGGGRRRRR` colour to opaque RGBA8.
///
/// Each 5-bit channel is expanded to 8 bits by replicating its top bits
/// into the low bits, so `0x1F` maps to `0xFF` rather than `0xF8`.
#[inline]
#[must_use]
pub fn bgr555_to_rgba(color: u16) -> (pixel: Rgba)
    ensures
        pixel == rgba_of(color),
{
    let r: u32 = expand5(color);
    let g: u32 = expand5(color >> 5);
    let b: u32 = expand5(color >> 10);
    (r << 24) | (g << 16) | (b << 8) | 0xFF
}

/// Expands the low 5 bits of `c` to 8 bits.
#[inline]
fn expand5(c: u16) -> (channel: u32)
    ensures
        channel == expanded(c),
{
    let c: u32 = (c & 0x1F) as u32;
    (c << 3) | (c >> 2)
}

/// The rendered frame, one [`Rgba`] per pixel in row-major order.
///
/// The frontend borrows this between frames; it is never copied.
#[derive(Debug)]
pub struct Framebuffer {
    /// The pixels, row by row.
    pub pixels: Vec<u32>,
}

impl View for Framebuffer {
    type V = Seq<u32>;

    open spec fn view(&self) -> Seq<u32> {
        self.pixels@
    }
}

/// A black, opaque frame.
pub open spec fn black_frame() -> Seq<u32> {
    Seq::new(38400, |i: int| 0x0000_00FFu32)
}

/// `pixels` with row `y` replaced by `row`.
pub open spec fn with_row(pixels: Seq<u32>, y: int, row: Seq<u32>) -> Seq<u32> {
    Seq::new(
        pixels.len(),
        |i: int|
            if 240 * y <= i < 240 * (y + 1) {
                row[i - 240 * y]
            } else {
                pixels[i]
            },
    )
}

impl Clone for Framebuffer {
    fn clone(&self) -> (copy: Self)
        ensures
            copy@ == self@,
    {
        let pixels = self.pixels.clone();
        assert(pixels@ =~= self.pixels@);
        Self { pixels }
    }
}

impl Default for Framebuffer {
    fn default() -> (frame: Self)
        ensures
            frame.wf(),
            frame@ == black_frame(),
    {
        Self::new()
    }
}

impl Framebuffer {
    /// One pixel for each screen position.
    pub open spec fn wf(&self) -> bool {
        self@.len() == 38400
    }

    /// A black, opaque frame.
    #[must_use]
    pub fn new() -> (frame: Self)
        ensures
            frame.wf(),
            frame@ == black_frame(),
    {
        let frame = Self { pixels: vec![0x0000_00FFu32; SCREEN_WIDTH * SCREEN_HEIGHT] };
        assert(frame@ =~= black_frame());
        frame
    }

    /// All pixels, row-major, `SCREEN_WIDTH * SCREEN_HEIGHT` long.
    #[inline]
    #[must_use]
    pub fn pixels(&self) -> (pixels: &[Rgba])
        ensures
            pixels@ == self@,
    {
        self.pixels.as_slice()
    }

    /// One scanline.
    #[inline]
    #[must_use]
    pub fn row(&self, y: usize) -> (row: &[Rgba])
        requires
            self.wf(),
            y < SCREEN_HEIGHT,
        ensures
            row@ == self@.subrange(240 * y, 240 * (y + 1)),
    {
        slice_subrange(self.pixels.as_slice(), y * SCREEN_WIDTH, (y + 1) * SCREEN_WIDTH)
    }

    /// Mutable access to one scanline, for the renderer.
    #[inline]
    pub fn row_mut(&mut self, y: usize) -> (row: &mut [Rgba])
        requires
            old(self).wf(),
            y < SCREEN_HEIGHT,
        ensures
            row@ == old(self)@.subrange(240 * y, 240 * (y + 1)),
            final(row)@.len() == 240 ==> final(self)@ == with_row(
                old(self)@,
                y as int,
                final(row)@,
            ),
    {
        let (_above, rest) = self.pixels.as_mut_slice().split_at_mut(y * SCREEN_WIDTH);
        let (row, _below) = rest.split_at_mut(SCREEN_WIDTH);
        row
    }

    /// The `(r, g, b)` of a pixel.
    #[inline]
    #[must_use]
    pub fn rgb(&self, x: usize, y: usize) -> (rgb: (u8, u8, u8))
        requires
            self.wf(),
            y * SCREEN_WIDTH + x < 38400,
        ensures
            ({
                let p = self@[y * SCREEN_WIDTH + x];
                rgb == ((p >> 24) as u8, (p >> 16) as u8, (p >> 8) as u8)
            }),
    {
        assert(y <= 160) by (nonlinear_arith)
            requires
                y * SCREEN_WIDTH + x < 38400,
                SCREEN_WIDTH == 240,
                x >= 0,
        ;
        let p: u32 = self.pixels[y * SCREEN_WIDTH + x];
        ((p >> 24) as u8, (p >> 16) as u8, (p >> 8) as u8)
    }
}

} // verus!
