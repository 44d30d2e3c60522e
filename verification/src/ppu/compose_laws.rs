//! What is seen where layers, windows and colour effects meet.

use vstd::prelude::*;

use crate::memory::io::IoView;
use crate::ppu::compose::{
    bg_visible, blend_of, effect_applied, front_backgrounds, layers_at, mixed, mixed_channel,
    window_at, Backgrounds, WindowMask,
};
use crate::ppu::framebuffer::rgba_of;
use crate::ppu::laws::law_best_priority_background_wins;
use crate::ppu::obj::ObjLineView;

verus! {

broadcast use crate::bits::group_mask_bounds;

/// Channel `k` of a 15-bit colour: red, green or blue.
pub open spec fn channel(color: u16, k: int) -> int {
    if k == 0 {
        color as int % 32
    } else if k == 1 {
        (color as int / 32) % 32
    } else {
        (color as int / 1024) % 32
    }
}

/// Whether bit `i` of a register is set.
pub open spec fn has_bit(value: u16, i: u16) -> bool {
    (value >> i) & 1 == 1
}

/// The smaller of two numbers.
pub open spec fn at_most(n: int, limit: int) -> int {
    if n > limit {
        limit
    } else {
        n
    }
}

/// The channels of a colour, apart and together.
proof fn lemma_channels(c: u16, x: u16, y: u16, z: u16)
    by (bit_vector)
    requires
        x < 32,
        y < 32,
        z < 32,
    ensures
        c & 0x1F == c % 32,
        (c >> 5) & 0x1F == (c / 32) % 32,
        (c >> 10) & 0x1F == (c / 1024) % 32,
        (c >> 8) & 0x1F == (c / 256) % 32,
        (x | (y << 5) | (z << 10)) % 32 == x,
        ((x | (y << 5) | (z << 10)) / 32) % 32 == y,
        (x | (y << 5) | (z << 10)) / 1024 == z,
        x | (y << 5) | (z << 10) < 0x8000,
{
}

/// The bits of the blend and window registers.
proof fn lemma_layer_bits(v: u16, layer: u16, bit: u8)
    by (bit_vector)
    requires
        layer < 6,
        bit == layer as u8,
    ensures
        (((v & 0x3F) as u8) & (1u8 << bit) != 0) == ((v >> layer) & 1 == 1),
        ((((v >> 8) & 0x3F) as u8) & (1u8 << bit) != 0) == ((v >> ((layer + 8) as u16)) & 1 == 1),
        layer < 5 ==> (((v & 0x1F) as u8) & (1u8 << bit) != 0) == ((v >> layer) & 1 == 1),
        layer < 5 ==> ((((v >> 8) & 0x1F) as u8) & (1u8 << bit) != 0) == ((v >> ((layer
            + 8) as u16)) & 1 == 1),
        (0x3Fu8 & (1u8 << bit) != 0),
        (v & 0x20 != 0) == ((v >> 5) & 1 == 1),
        ((v >> 8) & 0x20 != 0) == ((v >> 13) & 1 == 1),
        (v & (1u16 << 13) != 0) == ((v >> 13) & 1 == 1),
        (v & (1u16 << 14) != 0) == ((v >> 14) & 1 == 1),
        (v & (1u16 << 15) != 0) == ((v >> 15) & 1 == 1),
        ((v >> 6) & 0b11) == ((v >> 6) & 1) | (((v >> 7) & 1) << 1),
        (v >> 6) & 1 == 0 || (v >> 6) & 1 == 1,
        (v >> 7) & 1 == 0 || (v >> 7) & 1 == 1,
        0u16 | (0u16 << 1) == 0,
        0u16 | (1u16 << 1) == 2,
        1u16 | (0u16 << 1) == 1,
        1u16 | (1u16 << 1) == 3,
{
}

/// Each channel of a mixed colour is the weighted sum, in sixteenths, and at
/// most 31.
proof fn lemma_mixed(a: u16, wa: u32, b: u16, wb: u32, k: int)
    requires
        wa <= 16,
        wb <= 16,
        0 <= k < 3,
    ensures
        channel(mixed(a, wa, b, wb), k) == at_most(
            (channel(a, k) * wa + channel(b, k) * wb) / 16,
            31,
        ),
        mixed(a, wa, b, wb) < 0x8000,
{
    lemma_channels(a, 0, 0, 0);
    lemma_channels(b, 0, 0, 0);
    let x = mixed_channel(a, wa, b, wb);
    let y = mixed_channel(a >> 5, wa, b >> 5, wb);
    let z = mixed_channel(a >> 10, wa, b >> 10, wb);
    lemma_sum_bound((a & 0x1F) as int, wa as int, (b & 0x1F) as int, wb as int);
    lemma_sum_bound(((a >> 5) & 0x1F) as int, wa as int, ((b >> 5) & 0x1F) as int, wb as int);
    lemma_sum_bound(((a >> 10) & 0x1F) as int, wa as int, ((b >> 10) & 0x1F) as int, wb as int);
    lemma_channels(0, x, y, z);
}

proof fn lemma_sum_bound(a: int, wa: int, b: int, wb: int)
    requires
        0 <= a < 32,
        0 <= b < 32,
        0 <= wa <= 16,
        0 <= wb <= 16,
    ensures
        0 <= a * wa + b * wb <= 992,
{
    assert(0 <= a * wa <= 496 && 0 <= b * wb <= 496) by (nonlinear_arith)
        requires
            0 <= a < 32,
            0 <= b < 32,
            0 <= wa <= 16,
            0 <= wb <= 16,
    ;
}

/// The blend registers by their bits: targets in the low and the high half of
/// the control, the effect between them, the weight of the first target in
/// the low byte of the alpha register and that of the second in the high one,
/// none above 16.
proof fn lemma_blend(io: IoView, layer: usize)
    requires
        layer < 6,
    ensures
        ({
            let cnt = io.read16(0x50);
            let alpha = io.read16(0x52);
            let blend = blend_of(io);
            &&& blend.eva == at_most(alpha as int % 32, 16)
            &&& blend.evb == at_most((alpha as int / 256) % 32, 16)
            &&& blend.evy == at_most(io.read16(0x54) as int % 32, 16)
            &&& (blend.first & (1u8 << (layer as u8)) != 0) == has_bit(cnt, layer as u16)
            &&& (blend.second & (1u8 << (layer as u8)) != 0) == has_bit(cnt, (layer + 8) as u16)
            &&& blend.effect == (if has_bit(cnt, 6) {
                1int
            } else {
                0
            }) + if has_bit(cnt, 7) {
                2int
            } else {
                0
            }
        }),
{
    let cnt = io.read16(0x50);
    lemma_channels(io.read16(0x52), 0, 0, 0);
    lemma_channels(io.read16(0x54), 0, 0, 0);
    lemma_layer_bits(cnt, layer as u16, layer as u8);
}

/// Alpha blending of a first target over a second one, selected by the
/// effect or by a semi-transparent sprite on top: each channel is the sum of
/// the top one in sixteenths by the first weight and the one below by the
/// second, at most 31. At full weight of one and none of the other that one
/// is seen unchanged.
pub proof fn law_alpha_blending(
    io: IoView,
    mask: WindowMask,
    top: (u16, usize),
    second: (u16, usize),
    semi: bool,
    k: int,
)
    requires
        mask.effects,
        top.1 < 6,
        second.1 < 6,
        has_bit(io.read16(0x50), (second.1 + 8) as u16),
        semi || (has_bit(io.read16(0x50), top.1 as u16) && has_bit(io.read16(0x50), 6) && !has_bit(
            io.read16(0x50),
            7,
        )),
        0 <= k < 3,
    ensures
        ({
            let seen = effect_applied(mask, blend_of(io), top, second, semi);
            let eva = at_most(io.read16(0x52) as int % 32, 16);
            let evb = at_most((io.read16(0x52) as int / 256) % 32, 16);
            &&& channel(seen, k) == at_most(
                (channel(top.0, k) * eva + channel(second.0, k) * evb) / 16,
                31,
            )
            &&& eva == 16 && evb == 0 ==> channel(seen, k) == channel(top.0, k)
            &&& eva == 0 && evb == 16 ==> channel(seen, k) == channel(second.0, k)
        }),
{
    lemma_blend(io, top.1);
    lemma_blend(io, second.1);
    let blend = blend_of(io);
    lemma_mixed(top.0, blend.eva, second.0, blend.evb, k);
}

/// Brightness effects on a first target: each channel moves by sixteenths
/// towards 31, or towards zero.
pub proof fn law_brightness(
    io: IoView,
    mask: WindowMask,
    top: (u16, usize),
    second: (u16, usize),
    k: int,
)
    requires
        mask.effects,
        top.1 < 6,
        second.1 < 6,
        has_bit(io.read16(0x50), top.1 as u16),
        has_bit(io.read16(0x50), 7),
        0 <= k < 3,
    ensures
        ({
            let seen = effect_applied(mask, blend_of(io), top, second, false);
            let evy = at_most(io.read16(0x54) as int % 32, 16);
            let c = channel(top.0, k);
            channel(seen, k) == if has_bit(io.read16(0x50), 6) {
                c * (16 - evy) / 16
            } else {
                (c * (16 - evy) + 31 * evy) / 16
            }
        }),
{
    lemma_blend(io, top.1);
    lemma_blend(io, second.1);
    let evy = blend_of(io).evy;
    let c = channel(top.0, k);
    lemma_mixed(top.0, (16 - evy) as u32, 0x7FFF, evy, k);
    lemma_mixed(top.0, (16 - evy) as u32, 0, 0, k);
    assert(channel(0x7FFF, k) == 31 && channel(0, k) == 0);
    assert(c * (16 - evy) <= 31 * (16 - evy)) by (nonlinear_arith)
        requires
            0 <= c <= 31,
            0 <= evy <= 16,
    ;
}

/// Where effects are masked, where the top layer is no first target, where no
/// effect is selected and where alpha blending finds no second target below,
/// the top layer is seen as it is; semi-transparent sprites blend regardless
/// of the first two of these about targets, over a second target.
pub proof fn law_no_effect(
    io: IoView,
    mask: WindowMask,
    top: (u16, usize),
    second: (u16, usize),
    semi: bool,
)
    requires
        top.1 < 6,
        second.1 < 6,
    ensures
        ({
            let cnt = io.read16(0x50);
            let first_target = has_bit(cnt, top.1 as u16);
            let second_target = has_bit(cnt, (second.1 + 8) as u16);
            let seen = effect_applied(mask, blend_of(io), top, second, semi);
            &&& !mask.effects ==> seen == top.0
            &&& !(semi && second_target) && !first_target ==> seen == top.0
            &&& !semi && !has_bit(cnt, 6) && !has_bit(cnt, 7) ==> seen == top.0
            &&& !second_target && has_bit(cnt, 6) && !has_bit(cnt, 7) ==> seen == top.0
        }),
{
    lemma_blend(io, top.1);
    lemma_blend(io, second.1);
}

/// Whether a window with registers `h` and `v` covers the pixel: from the
/// high byte up to the low byte, each way; a range that ends before it starts
/// or past the screen ends at its edge.
pub open spec fn covers(h: u16, v: u16, x: int, y: int) -> bool {
    let (left, right) = (h as int / 256, h as int % 256);
    let (upper, lower) = (v as int / 256, v as int % 256);
    &&& left <= x
    &&& x < right || right < left || right > 240
    &&& upper <= y
    &&& y < lower || lower < upper || lower > 160
}

/// Whether `mask` is the mask that bits `shift` to `shift + 5` of a window
/// register stand for.
pub open spec fn masks_as(mask: WindowMask, register: u16, shift: u16) -> bool {
    &&& forall|layer: u8|
        layer < 5 ==> (#[trigger] (mask.layers & (1u8 << layer)) != 0) == has_bit(
            register,
            (layer + shift) as u16,
        )
    &&& mask.effects == has_bit(register, (5 + shift) as u16)
}

/// The first window that is on and covers a pixel decides what is visible
/// there, then the second, then the sprite window, then the register for
/// what is outside; without any window everything is visible.
pub proof fn law_windows(io: IoView, y: int, x: int, obj_enabled: bool, obj: ObjLineView)
    requires
        0 <= x < 240,
        0 <= y < 160,
    ensures
        ({
            let mask = window_at(io, y, x, obj_enabled, obj);
            let on = io.read16(0);
            let sprites = has_bit(on, 15) && obj_enabled;
            if !has_bit(on, 13) && !has_bit(on, 14) && !sprites {
                mask.effects && forall|layer: u8|
                    layer < 6 ==> (#[trigger] (mask.layers & (1u8 << layer)) != 0)
            } else if has_bit(on, 13) && covers(io.read16(0x40), io.read16(0x44), x, y) {
                masks_as(mask, io.read16(0x48), 0)
            } else if has_bit(on, 14) && covers(io.read16(0x42), io.read16(0x46), x, y) {
                masks_as(mask, io.read16(0x48), 8)
            } else if sprites && obj.window[x] {
                masks_as(mask, io.read16(0x4A), 8)
            } else {
                masks_as(mask, io.read16(0x4A), 0)
            }
        }),
{
    lemma_layer_bits(io.read16(0), 0, 0);
    lemma_window_bytes(io.read16(0x40));
    lemma_window_bytes(io.read16(0x42));
    lemma_window_bytes(io.read16(0x44));
    lemma_window_bytes(io.read16(0x46));
    let mask = window_at(io, y, x, obj_enabled, obj);
    assert forall|layer: u8| layer < 5 implies {
        let seen = #[trigger] (mask.layers & (1u8 << layer)) != 0;
        let (winin, winout) = (io.read16(0x48), io.read16(0x4A));
        &&& mask.layers == (winin & 0x1F) as u8 ==> seen == has_bit(winin, layer as u16)
        &&& mask.layers == ((winin >> 8) & 0x1F) as u8 ==> seen == has_bit(
            winin,
            (layer + 8) as u16,
        )
        &&& mask.layers == (winout & 0x1F) as u8 ==> seen == has_bit(winout, layer as u16)
        &&& mask.layers == ((winout >> 8) & 0x1F) as u8 ==> seen == has_bit(
            winout,
            (layer + 8) as u16,
        )
    } by {
        lemma_layer_bits(io.read16(0x48), layer as u16, layer);
        lemma_layer_bits(io.read16(0x4A), layer as u16, layer);
    }
    assert forall|layer: u8| layer < 6 && mask.layers == 0x3F implies #[trigger] (mask.layers & (
    1u8 << layer)) != 0 by {
        lemma_layer_bits(0, layer as u16, layer);
    }
    lemma_layer_bits(io.read16(0x48), 0, 0);
    lemma_layer_bits(io.read16(0x4A), 0, 0);
}

proof fn lemma_window_bytes(v: u16)
    by (bit_vector)
    ensures
        v >> 8 == v / 256,
        v & 0xFF == v % 256,
{
}

/// The background behind the front one is a visible one too, with the best
/// priority of the others, and the lowest number among equals.
pub proof fn law_second_background(b: Backgrounds, mask: WindowMask, x: int, upto: int)
    requires
        upto <= 4,
    ensures
        match front_backgrounds(b, mask, x, upto) {
            (Some(first), Some((color, layer, priority))) => {
                &&& 0 <= layer < upto
                &&& layer != first.1
                &&& bg_visible(b, mask, layer as int, x)
                &&& color == b.lines[layer as int][x]
                &&& priority == b.priority[layer as int]
                &&& forall|bg: int|
                    0 <= bg < upto && bg != first.1 && #[trigger] bg_visible(b, mask, bg, x)
                        ==> priority < b.priority[bg] || (priority == b.priority[bg] && layer
                        <= bg)
            },
            (Some(first), None) => forall|bg: int|
                0 <= bg < upto && bg != first.1 ==> !(#[trigger] bg_visible(b, mask, bg, x)),
            (None, second) => second is None,
        },
    decreases upto,
{
    if upto > 0 {
        law_second_background(b, mask, x, upto - 1);
        law_best_priority_background_wins(b, mask, x, upto - 1);
    }
}

/// A visible sprite pixel is in front of the front background unless that
/// has the better priority, and then behind it but in front of the next one
/// unless that has the better priority too. Behind the last one comes the
/// backdrop. Only a sprite on top can be semi-transparent.
pub proof fn law_sprites_between_backgrounds(
    x: int,
    mask: WindowMask,
    b: Backgrounds,
    obj_enabled: bool,
    obj: ObjLineView,
    backdrop: u16,
)
    requires
        obj.priorities[x] <= 3,
    ensures
        ({
            let (first, next) = front_backgrounds(b, mask, x, 4);
            let (top, second, semi) = layers_at(x, mask, b, obj_enabled, obj, backdrop);
            let sprite = (obj.colors[x], 4usize);
            let of = |c: Option<(u16, usize, u8)>|
                match c {
                    Some(c) => (c.0, c.1),
                    None => (backdrop, 5usize),
                };
            let behind = |c: Option<(u16, usize, u8)>|
                match c {
                    Some(c) => c.2 < obj.priorities[x],
                    None => false,
                };
            let shown = obj_enabled && mask.layers & (1u8 << 4) != 0 && obj.colors[x] != 0x8000;
            &&& !shown ==> top == of(first) && second == of(next) && !semi
            &&& shown && !behind(first) ==> top == sprite && second == of(first) && semi
                == obj.semi_transparent[x]
            &&& shown && behind(first) && !behind(next) ==> top == of(first) && second == sprite
                && !semi
            &&& shown && behind(first) && behind(next) ==> top == of(first) && second == of(next)
                && !semi
        }),
{
}

/// The bytes of a pixel.
proof fn lemma_pixel_bytes(r: u32, g: u32, b: u32)
    by (bit_vector)
    requires
        r < 32,
        g < 32,
        b < 32,
    ensures
        (r << 3) | (r >> 2) == 8 * r + r / 4,
        (g << 3) | (g >> 2) == 8 * g + g / 4,
        (b << 3) | (b >> 2) == 8 * b + b / 4,
        (((r << 3) | (r >> 2)) << 24) | (((g << 3) | (g >> 2)) << 16) | (((b << 3) | (b >> 2)) << 8)
            | 0xFF == 0x100_0000 * ((r << 3) | (r >> 2)) + 0x1_0000 * ((g << 3) | (g >> 2)) + 0x100
            * ((b << 3) | (b >> 2)) + 255,
{
}

/// A pixel is opaque, and each of its channels is the 5-bit one spread over
/// 0 to 255: eight for each unit and the top bits once more.
pub proof fn law_pixel_colours(color: u16)
    ensures
        ({
            let spread = |k: int| 8 * channel(color, k) + channel(color, k) / 4;
            rgba_of(color) == 0x100_0000 * spread(0) + 0x1_0000 * spread(1) + 0x100 * spread(2)
                + 255
        }),
{
    lemma_channels(color, 0, 0, 0);
    lemma_pixel_bytes(
        (color & 0x1F) as u32,
        ((color >> 5) & 0x1F) as u32,
        ((color >> 10) & 0x1F) as u32,
    );
}

} // verus!
