//! Scanline composition: windows, priority ordering and colour effects.

use vstd::prelude::*;

use crate::memory::io::{reg, IoRegisters, IoView};
use crate::ppu::framebuffer::SCREEN_WIDTH;
use crate::ppu::obj::{ObjLine, ObjLineView};
use crate::ppu::tiled::TRANSPARENT;

verus! {

broadcast use crate::bits::group_mask_bounds;

/// The sprite layer, in `WININ`/`WINOUT`/`BLDCNT` bit order.
pub const OBJ: usize = 4;
/// The backdrop, in `WININ`/`WINOUT`/`BLDCNT` bit order.
pub const BACKDROP: usize = 5;

/// Which layers (and colour effects) are visible at a pixel.
#[derive(Debug, Clone, Copy, PartialEq, Eq, Structural)]
pub struct WindowMask {
    /// Visible layers.
    pub layers: u8,
    /// Whether colour effects apply.
    pub effects: bool,
}

/// Everything is visible.
pub open spec fn open_mask() -> WindowMask {
    WindowMask { layers: 0x3F, effects: true }
}

/// The mask that the low bits of a window register select.
pub open spec fn mask_of(bits: u16) -> WindowMask {
    WindowMask { layers: (bits & 0x1F) as u8, effects: bits & 0x20 != 0 }
}

/// Whether bit `layer` of `set` is set.
pub open spec fn has_layer(set: u8, layer: usize) -> bool {
    set & (1u8 << (layer as u8)) != 0
}

fn contains_layer(set: u8, layer: usize) -> (contained: bool)
    requires
        layer < 8,
    ensures
        contained == has_layer(set, layer),
{
    set & (1u8 << (layer as u8)) != 0
}

impl WindowMask {
    fn from_bits(bits: u16) -> (mask: Self)
        ensures
            mask == mask_of(bits),
    {
        Self { layers: (bits & 0x1F) as u8, effects: bits & 0x20 != 0 }
    }

    fn allows(self, layer: usize) -> (allowed: bool)
        requires
            layer < 8,
        ensures
            allowed == has_layer(self.layers, layer),
    {
        contains_layer(self.layers, layer)
    }
}

/// `end`, unless it is before `start` or past `limit`: an inverted range
/// wraps to the edge.
pub open spec fn range_end(start: int, end: int, limit: int) -> int {
    if end < start || end > limit {
        limit
    } else {
        end
    }
}

/// The columns `x1..x2` that a window with registers `hv` and `vv` covers on
/// line `y`, if it is active there. Ranges are inclusive-exclusive.
pub open spec fn window_columns(hv: u16, vv: u16, y: int) -> Option<(int, int)> {
    let y1 = (vv >> 8) as int;
    let x1 = (hv >> 8) as int;
    if y1 <= y < range_end(y1, (vv & 0xFF) as int, 160) {
        Some((x1, range_end(x1, (hv & 0xFF) as int, 240)))
    } else {
        None
    }
}

/// A horizontal window range (`x1..x2`) on this line, if the window is
/// active on this line at all.
fn window_range(io: &IoRegisters, h: u32, v: u32, y: usize) -> (range: Option<(usize, usize)>)
    requires
        io.wf(),
    ensures
        match range {
            Some((x1, x2)) => window_columns(io@.read16(h), io@.read16(v), y as int) == Some(
                (x1 as int, x2 as int),
            ),
            None => window_columns(io@.read16(h), io@.read16(v), y as int) is None,
        },
{
    let hv: u16 = io.read16(h);
    let vv: u16 = io.read16(v);
    let y1: usize = (vv >> 8) as usize;
    let y2: usize = (vv & 0xFF) as usize;
    // Ranges are inclusive-exclusive; an inverted range wraps to the edge.
    let y2: usize = if y2 < y1 || y2 > 160 {
        160
    } else {
        y2
    };
    if y < y1 || y >= y2 {
        return None;
    }
    let x1: usize = (hv >> 8) as usize;
    let x2: usize = (hv & 0xFF) as usize;
    let x2: usize = if x2 < x1 || x2 > SCREEN_WIDTH {
        SCREEN_WIDTH
    } else {
        x2
    };
    Some((x1, x2))
}

/// Whether column `x` is inside a window.
pub open spec fn inside(window: Option<(int, int)>, x: int) -> bool {
    window matches Some((x1, x2)) && x1 <= x < x2
}

fn is_inside(window: Option<(usize, usize)>, x: usize) -> (inside: bool)
    ensures
        inside == (window matches Some((x1, x2)) && x1 <= x < x2),
{
    match window {
        Some((x1, x2)) => x >= x1 && x < x2,
        None => false,
    }
}

/// Decoded `BLDCNT`/`BLDALPHA`/`BLDY`.
#[derive(Debug, Clone, Copy, PartialEq, Eq, Structural)]
pub struct Blend {
    /// First-target layers.
    pub first: u8,
    /// Second-target layers.
    pub second: u8,
    /// Selected effect.
    pub effect: u8,
    /// Weight of the first target, in 16ths.
    pub eva: u32,
    /// Weight of the second target, in 16ths.
    pub evb: u32,
    /// Brightness change, in 16ths.
    pub evy: u32,
}

/// A weight field: five bits, at most 16.
pub open spec fn weight(field: u16) -> u32 {
    let w = (field & 0x1F) as u32;
    if w > 16 {
        16
    } else {
        w
    }
}

fn read_weight(field: u16) -> (w: u32)
    ensures
        w == weight(field),
        w <= 16,
{
    let w: u32 = (field & 0x1F) as u32;
    if w > 16 {
        16
    } else {
        w
    }
}

/// The blend registers of `io`, decoded.
pub open spec fn blend_of(io: IoView) -> Blend {
    let cnt = io.read16(reg::BLDCNT);
    let alpha = io.read16(reg::BLDALPHA);
    Blend {
        first: (cnt & 0x3F) as u8,
        second: ((cnt >> 8) & 0x3F) as u8,
        effect: ((cnt >> 6) & 0b11) as u8,
        eva: weight(alpha),
        evb: weight(alpha >> 8),
        evy: weight(io.read16(reg::BLDY)),
    }
}

impl Blend {
    /// The weights are at most 16.
    pub open spec fn wf(self) -> bool {
        self.eva <= 16 && self.evb <= 16 && self.evy <= 16
    }

    fn read(io: &IoRegisters) -> (blend: Self)
        requires
            io.wf(),
        ensures
            blend == blend_of(io@),
            blend.wf(),
    {
        let cnt: u16 = io.read16(reg::BLDCNT);
        let alpha: u16 = io.read16(reg::BLDALPHA);
        Self {
            first: (cnt & 0x3F) as u8,
            second: ((cnt >> 8) & 0x3F) as u8,
            effect: ((cnt >> 6) & 0b11) as u8,
            eva: read_weight(alpha),
            evb: read_weight(alpha >> 8),
            evy: read_weight(io.read16(reg::BLDY)),
        }
    }
}

/// One 5-bit channel of the weighted sum of `a` and `b`, saturating at 31.
pub open spec fn mixed_channel(a: u16, wa: u32, b: u16, wb: u32) -> u16 {
    let sum = ((a & 0x1F) * wa + (b & 0x1F) * wb) / 16;
    if sum > 31 {
        31
    } else {
        sum as u16
    }
}

/// Per-channel `a*wa + b*wb` (in 16ths) on 15-bit colours, saturating at 31.
pub open spec fn mixed(a: u16, wa: u32, b: u16, wb: u32) -> u16 {
    mixed_channel(a, wa, b, wb) | (mixed_channel(a >> 5, wa, b >> 5, wb) << 5) | (mixed_channel(
        a >> 10,
        wa,
        b >> 10,
        wb,
    ) << 10)
}

fn mix_channel(a: u16, wa: u32, b: u16, wb: u32) -> (c: u16)
    requires
        wa <= 16,
        wb <= 16,
    ensures
        c == mixed_channel(a, wa, b, wb),
        c <= 31,
{
    let ca: u32 = (a & 0x1F) as u32;
    let cb: u32 = (b & 0x1F) as u32;
    assert(0 <= ca * wa <= 31 * 16 && 0 <= cb * wb <= 31 * 16) by (nonlinear_arith)
        requires
            0 <= ca <= 31,
            0 <= cb <= 31,
            0 <= wa <= 16,
            0 <= wb <= 16,
    ;
    let sum: u32 = (ca * wa + cb * wb) / 16;
    if sum > 31 {
        31
    } else {
        sum as u16
    }
}

/// Per-channel `a*wa + b*wb` on 15-bit colours, saturating at 31.
fn mix(a: u16, wa: u32, b: u16, wb: u32) -> (color: u16)
    requires
        wa <= 16,
        wb <= 16,
    ensures
        color == mixed(a, wa, b, wb),
{
    mix_channel(a, wa, b, wb) | (mix_channel(a >> 5, wa, b >> 5, wb) << 5) | (mix_channel(
        a >> 10,
        wa,
        b >> 10,
        wb,
    ) << 10)
}

fn brighten(c: u16, evy: u32) -> (color: u16)
    requires
        evy <= 16,
    ensures
        color == mixed(c, (16 - evy) as u32, 0x7FFF, evy),
{
    mix(c, 16 - evy, 0x7FFF, evy)
}

fn darken(c: u16, evy: u32) -> (color: u16)
    requires
        evy <= 16,
    ensures
        color == mixed(c, (16 - evy) as u32, 0, 0),
{
    mix(c, 16 - evy, 0, 0)
}

/// A visible background pixel: colour, layer, priority.
pub type Candidate = (u16, usize, u8);

/// The backgrounds of a line and their state.
pub struct Backgrounds {
    /// Each background's pixels, `TRANSPARENT` where empty.
    pub lines: Seq<Seq<u16>>,
    /// Whether each is enabled.
    pub enabled: Seq<bool>,
    /// The priority of each.
    pub priority: Seq<u8>,
}

/// Whether background `bg` shows a pixel at `x` under `mask`.
pub open spec fn bg_visible(b: Backgrounds, mask: WindowMask, bg: int, x: int) -> bool {
    b.enabled[bg] && has_layer(mask.layers, bg as usize) && b.lines[bg][x] != TRANSPARENT
}

/// The front two of a candidate and the front two so far. Ties go to the
/// earlier one.
pub open spec fn front_two(
    best: Option<Candidate>,
    second: Option<Candidate>,
    candidate: Candidate,
) -> (Option<Candidate>, Option<Candidate>) {
    match best {
        Some(b) => if candidate.2 >= b.2 {
            match second {
                Some(s) => if candidate.2 < s.2 {
                    (best, Some(candidate))
                } else {
                    (best, second)
                },
                None => (best, Some(candidate)),
            }
        } else {
            (Some(candidate), best)
        },
        None => (Some(candidate), best),
    }
}

/// The front two visible backgrounds below `upto` at `x`.
pub open spec fn front_backgrounds(b: Backgrounds, mask: WindowMask, x: int, upto: int) -> (
    Option<Candidate>,
    Option<Candidate>,
)
    decreases upto,
{
    if upto <= 0 {
        (None, None)
    } else {
        let (best, second) = front_backgrounds(b, mask, x, upto - 1);
        let bg = upto - 1;
        if bg_visible(b, mask, bg, x) {
            front_two(best, second, (b.lines[bg][x], bg as usize, b.priority[bg]))
        } else {
            (best, second)
        }
    }
}

/// The colour and layer of a candidate, or of the backdrop.
pub open spec fn layer_or_backdrop(c: Option<Candidate>, backdrop: u16) -> (u16, usize) {
    match c {
        Some((color, layer, _)) => (color, layer),
        None => (backdrop, BACKDROP),
    }
}

/// The priority of a candidate, or "worse than anything".
pub open spec fn priority_or_worst(c: Option<Candidate>) -> u8 {
    match c {
        Some((_, _, priority)) => priority,
        None => 4,
    }
}

/// The two topmost visible pixels at `x` as `(colour, layer id)`, and
/// whether the top one is a semi-transparent sprite. A sprite goes in front
/// of backgrounds of equal priority.
pub open spec fn layers_at(
    x: int,
    mask: WindowMask,
    b: Backgrounds,
    obj_enabled: bool,
    obj: ObjLineView,
    backdrop: u16,
) -> ((u16, usize), (u16, usize), bool) {
    let (best, next) = front_backgrounds(b, mask, x, 4);
    let top = layer_or_backdrop(best, backdrop);
    let second = layer_or_backdrop(next, backdrop);
    if obj_enabled && has_layer(mask.layers, OBJ) && obj.colors[x] != TRANSPARENT {
        let sprite = (obj.colors[x], OBJ);
        if obj.priorities[x] <= priority_or_worst(best) {
            (sprite, top, obj.semi_transparent[x])
        } else if next is None || obj.priorities[x] <= priority_or_worst(next) {
            (top, sprite, false)
        } else {
            (top, second, false)
        }
    } else {
        (top, second, false)
    }
}

/// The colour of the topmost pixel after effects: a semi-transparent sprite
/// over a second target blends, then the selected effect applies to first
/// targets.
pub open spec fn effect_applied(
    mask: WindowMask,
    blend: Blend,
    top: (u16, usize),
    second: (u16, usize),
    semi: bool,
) -> u16 {
    let first_target = has_layer(blend.first, top.1);
    let second_target = has_layer(blend.second, second.1);
    if !mask.effects {
        top.0
    } else if semi && second_target {
        mixed(top.0, blend.eva, second.0, blend.evb)
    } else if !first_target {
        top.0
    } else if blend.effect == 1 && second_target {
        mixed(top.0, blend.eva, second.0, blend.evb)
    } else if blend.effect == 2 {
        mixed(top.0, (16 - blend.evy) as u32, 0x7FFF, blend.evy)
    } else if blend.effect == 3 {
        mixed(top.0, (16 - blend.evy) as u32, 0, 0)
    } else {
        top.0
    }
}

/// The window mask at column `x` of line `y`.
pub open spec fn window_at(
    io: IoView,
    y: int,
    x: int,
    obj_enabled: bool,
    obj: ObjLineView,
) -> WindowMask {
    let dispcnt = io.read16(reg::DISPCNT);
    let win0_on = dispcnt & (1u16 << 13) != 0;
    let win1_on = dispcnt & (1u16 << 14) != 0;
    let objwin_on = dispcnt & (1u16 << 15) != 0 && obj_enabled;
    let winin = io.read16(reg::WININ);
    let winout = io.read16(reg::WINOUT);
    if !win0_on && !win1_on && !objwin_on {
        open_mask()
    } else if win0_on && inside(
        window_columns(io.read16(reg::WIN0H), io.read16(reg::WIN0V), y),
        x,
    ) {
        mask_of(winin)
    } else if win1_on && inside(
        window_columns(io.read16(reg::WIN1H), io.read16(reg::WIN1V), y),
        x,
    ) {
        mask_of(winin >> 8)
    } else if objwin_on && obj.window[x] {
        mask_of(winout >> 8)
    } else {
        mask_of(winout)
    }
}

/// Pixel `x` of the composed line `y`.
pub open spec fn composed_pixel(
    io: IoView,
    y: int,
    b: Backgrounds,
    obj_enabled: bool,
    obj: ObjLineView,
    backdrop: u16,
    x: int,
) -> u16 {
    let mask = window_at(io, y, x, obj_enabled, obj);
    let (top, second, semi) = layers_at(x, mask, b, obj_enabled, obj, backdrop);
    effect_applied(mask, blend_of(io), top, second, semi)
}

/// The pixels of four scanline buffers.
pub open spec fn line_pixels(lines: [[u16; 240]; 4]) -> Seq<Seq<u16>> {
    Seq::new(4, |bg: int| lines@[bg]@)
}

/// Composes one scanline into 15-bit colours.
///
/// `bg_lines` holds each background's pixels (`TRANSPARENT` where empty),
/// `bg_enabled`/`bg_priority` its state, `obj` the sprite layer, and
/// `backdrop` palette entry 0.
pub fn compose_line(
    io: &IoRegisters,
    y: usize,
    bg_lines: &[[u16; 240]; 4],
    bg_enabled: [bool; 4],
    bg_priority: [u8; 4],
    obj_enabled: bool,
    obj: &ObjLine,
    backdrop: u16,
    out: &mut [u16; 240],
)
    requires
        io.wf(),
    ensures
        ({
            let b = Backgrounds {
                lines: line_pixels(*bg_lines),
                enabled: bg_enabled@,
                priority: bg_priority@,
            };
            final(out)@ == Seq::new(
                240,
                |x: int| composed_pixel(io@, y as int, b, obj_enabled, obj@, backdrop, x),
            )
        }),
{
    let ghost b = Backgrounds {
        lines: line_pixels(*bg_lines),
        enabled: bg_enabled@,
        priority: bg_priority@,
    };
    let dispcnt: u16 = io.read16(reg::DISPCNT);
    let win0_on = dispcnt & (1u16 << 13) != 0;
    let win1_on = dispcnt & (1u16 << 14) != 0;
    let objwin_on = dispcnt & (1u16 << 15) != 0 && obj_enabled;
    let any_window = win0_on || win1_on || objwin_on;

    let win0 = window_range(io, reg::WIN0H, reg::WIN0V, y);
    let win1 = window_range(io, reg::WIN1H, reg::WIN1V, y);
    let winin: u16 = io.read16(reg::WININ);
    let winout: u16 = io.read16(reg::WINOUT);
    let mask0 = WindowMask::from_bits(winin);
    let mask1 = WindowMask::from_bits(winin >> 8);
    let mask_out = WindowMask::from_bits(winout);
    let mask_obj = WindowMask::from_bits(winout >> 8);

    let blend = Blend::read(io);

    for x in 0..SCREEN_WIDTH
        invariant
            b.lines == line_pixels(*bg_lines),
            b.enabled == bg_enabled@,
            b.priority == bg_priority@,
            dispcnt == io@.read16(reg::DISPCNT),
            win0_on == (dispcnt & (1u16 << 13) != 0),
            win1_on == (dispcnt & (1u16 << 14) != 0),
            objwin_on == (dispcnt & (1u16 << 15) != 0 && obj_enabled),
            any_window == (win0_on || win1_on || objwin_on),
            match win0 {
                Some((x1, x2)) => window_columns(
                    io@.read16(reg::WIN0H),
                    io@.read16(reg::WIN0V),
                    y as int,
                ) == Some((x1 as int, x2 as int)),
                None => window_columns(
                    io@.read16(reg::WIN0H),
                    io@.read16(reg::WIN0V),
                    y as int,
                ) is None,
            },
            match win1 {
                Some((x1, x2)) => window_columns(
                    io@.read16(reg::WIN1H),
                    io@.read16(reg::WIN1V),
                    y as int,
                ) == Some((x1 as int, x2 as int)),
                None => window_columns(
                    io@.read16(reg::WIN1H),
                    io@.read16(reg::WIN1V),
                    y as int,
                ) is None,
            },
            winin == io@.read16(reg::WININ),
            winout == io@.read16(reg::WINOUT),
            mask0 == mask_of(winin),
            mask1 == mask_of(winin >> 8),
            mask_out == mask_of(winout),
            mask_obj == mask_of(winout >> 8),
            blend == blend_of(io@),
            blend.wf(),
            forall|k: int|
                0 <= k < x ==> out@[k] == composed_pixel(
                    io@,
                    y as int,
                    b,
                    obj_enabled,
                    obj@,
                    backdrop,
                    k,
                ),
    {
        let mask = if !any_window {
            WindowMask { layers: 0x3F, effects: true }
        } else if win0_on && is_inside(win0, x) {
            mask0
        } else if win1_on && is_inside(win1, x) {
            mask1
        } else if objwin_on && obj.window[x] {
            mask_obj
        } else {
            mask_out
        };
        assert(mask == window_at(io@, y as int, x as int, obj_enabled, obj@));
        let (top, second, semi) = select_layers(
            x,
            mask,
            bg_lines,
            bg_enabled,
            bg_priority,
            obj_enabled,
            obj,
            backdrop,
        );
        out[x] = apply_effect(mask, blend, top, second, semi);
    }
    assert(out@ =~= Seq::new(
        240,
        |x: int| composed_pixel(io@, y as int, b, obj_enabled, obj@, backdrop, x),
    ));
}

/// The colour of the topmost pixel after effects.
fn apply_effect(
    mask: WindowMask,
    blend: Blend,
    top: (u16, usize),
    second: (u16, usize),
    semi: bool,
) -> (color: u16)
    requires
        blend.wf(),
        top.1 < 8,
        second.1 < 8,
    ensures
        color == effect_applied(mask, blend, top, second, semi),
{
    let (color, layer) = top;
    let first_target = contains_layer(blend.first, layer);
    let second_target = contains_layer(blend.second, second.1);
    if !mask.effects {
        color
    } else if semi && second_target {
        mix(color, blend.eva, second.0, blend.evb)
    } else if !first_target {
        color
    } else {
        match blend.effect {
            1 if second_target => mix(color, blend.eva, second.0, blend.evb),
            2 => brighten(color, blend.evy),
            3 => darken(color, blend.evy),
            _ => color,
        }
    }
}

/// Picks the front two visible backgrounds at `x`, ties to the
/// lower-numbered layer.
fn select_backgrounds(
    x: usize,
    mask: WindowMask,
    bg_lines: &[[u16; 240]; 4],
    bg_enabled: [bool; 4],
    bg_priority: [u8; 4],
) -> (front: (Option<Candidate>, Option<Candidate>))
    requires
        x < 240,
    ensures
        ({
            let b = Backgrounds {
                lines: line_pixels(*bg_lines),
                enabled: bg_enabled@,
                priority: bg_priority@,
            };
            front == front_backgrounds(b, mask, x as int, 4)
        }),
        front.0 matches Some(c) ==> c.1 < 4,
        front.1 matches Some(c) ==> c.1 < 4,
{
    let ghost b = Backgrounds {
        lines: line_pixels(*bg_lines),
        enabled: bg_enabled@,
        priority: bg_priority@,
    };
    let mut best_bg: Option<Candidate> = None;
    let mut second_bg: Option<Candidate> = None;
    for bg in 0..4usize
        invariant
            x < 240,
            b.lines == line_pixels(*bg_lines),
            b.enabled == bg_enabled@,
            b.priority == bg_priority@,
            (best_bg, second_bg) == front_backgrounds(b, mask, x as int, bg as int),
            best_bg matches Some(c) ==> c.1 < 4,
            second_bg matches Some(c) ==> c.1 < 4,
    {
        let c: u16 = bg_lines[bg][x];
        assert(c == b.lines[bg as int][x as int]);
        if bg_enabled[bg] && mask.allows(bg) && c != TRANSPARENT {
            let candidate: Candidate = (c, bg, bg_priority[bg]);
            match best_bg {
                Some(best) if candidate.2 >= best.2 => {
                    let closer = match second_bg {
                        Some(s) => candidate.2 < s.2,
                        None => true,
                    };
                    if closer {
                        second_bg = Some(candidate);
                    }
                },
                _ => {
                    second_bg = best_bg;
                    best_bg = Some(candidate);
                },
            }
        }
    }
    (best_bg, second_bg)
}

/// Picks the two topmost visible pixels at `x` as `(colour, layer id)`,
/// plus whether the top one is a semi-transparent sprite.
fn select_layers(
    x: usize,
    mask: WindowMask,
    bg_lines: &[[u16; 240]; 4],
    bg_enabled: [bool; 4],
    bg_priority: [u8; 4],
    obj_enabled: bool,
    obj: &ObjLine,
    backdrop: u16,
) -> (layers: ((u16, usize), (u16, usize), bool))
    requires
        x < 240,
    ensures
        ({
            let b = Backgrounds {
                lines: line_pixels(*bg_lines),
                enabled: bg_enabled@,
                priority: bg_priority@,
            };
            layers == layers_at(x as int, mask, b, obj_enabled, obj@, backdrop)
        }),
        (layers.0).1 < 8,
        (layers.1).1 < 8,
{
    let mut top: (u16, usize) = (backdrop, BACKDROP);
    let mut second: (u16, usize) = (backdrop, BACKDROP);
    let mut top_priority: u8 = 4;
    let mut second_priority: u8 = 4;

    let (best_bg, second_bg) = select_backgrounds(x, mask, bg_lines, bg_enabled, bg_priority);
    if let Some((c, bg, p)) = best_bg {
        top = (c, bg);
        top_priority = p;
    }
    if let Some((c, bg, p)) = second_bg {
        second = (c, bg);
        second_priority = p;
    }

    let mut semi = false;
    if obj_enabled && mask.allows(OBJ) && obj.colors[x] != TRANSPARENT {
        if obj.priorities[x] <= top_priority {
            second = top;
            top = (obj.colors[x], OBJ);
            semi = obj.semi_transparent[x];
        } else if second.1 == BACKDROP || obj.priorities[x] <= second_priority {
            second = (obj.colors[x], OBJ);
        }
    }
    (top, second, semi)
}

} // verus!
