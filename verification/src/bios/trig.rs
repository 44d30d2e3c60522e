//! Fixed-point trigonometry for the affine helpers and `ArcTan2`.

use vstd::prelude::*;

verus! {

broadcast use crate::bits::group_mask_bounds;

/// `sin` over the first quarter turn, in 64 steps, as 8.8 fixed point
/// rounded to the nearest.
pub const QUARTER_SINE: [i32; 65] = [
    0, 6, 13, 19, 25, 31, 38, 44, 50, 56, 62, 68, 74, 80, 86, 92, 98, 104, 109, 115, 121, 126, 132,
    137, 142, 147, 152, 157, 162, 167, 172, 177, 181, 185, 190, 194, 198, 202, 206, 209, 213, 216,
    220, 223, 226, 229, 231, 234, 237, 239, 241, 243, 245, 247, 248, 250, 251, 252, 253, 254, 255,
    255, 256, 256, 256,
];

/// `sin` of `theta` 256ths of a turn (0–255), in 8.8 fixed point.
pub open spec fn sine(theta: int) -> i32 {
    if theta <= 64 {
        QUARTER_SINE@[theta]
    } else if theta <= 128 {
        QUARTER_SINE@[128 - theta]
    } else if theta <= 192 {
        (-QUARTER_SINE@[theta - 128]) as i32
    } else {
        (-QUARTER_SINE@[256 - theta]) as i32
    }
}

fn sin(theta: usize) -> (value: i32)
    requires
        theta < 256,
    ensures
        value == sine(theta as int),
        -256 <= value <= 256,
{
    if theta <= 64 {
        QUARTER_SINE[theta]
    } else if theta <= 128 {
        QUARTER_SINE[128 - theta]
    } else if theta <= 192 {
        -QUARTER_SINE[theta - 128]
    } else {
        -QUARTER_SINE[256 - theta]
    }
}

/// `sin` and `cos` of a BIOS angle (`0..=0xFF` = one turn).
pub open spec fn sine_cosine(theta: u16) -> (i32, i32) {
    let angle = (theta & 0xFF) as int;
    (sine(angle), sine((angle + 64) % 256))
}

/// `sin`/`cos` of a BIOS angle (`0..=0xFF` = one turn) in 8.8 fixed point.
pub fn sin_cos(theta: u16) -> (out: (i32, i32))
    ensures
        out == sine_cosine(theta),
        -256 <= out.0 <= 256,
        -256 <= out.1 <= 256,
{
    let angle: usize = (theta & 0xFF) as usize;
    (sin(angle), sin((angle + 64) % 256))
}

/// The rotation/scaling matrix for scale `(sx, sy)` (8.8) and `theta`: PA,
/// PB, PC and PD.
pub open spec fn affine(sx: i32, sy: i32, theta: u16) -> Seq<i32> {
    let (sin, cos) = sine_cosine(theta);
    seq![
        ((sx * cos) as i32) >> 8u32,
        ((-(sx * sin)) as i32) >> 8u32,
        ((sy * sin) as i32) >> 8u32,
        ((sy * cos) as i32) >> 8u32,
    ]
}

proof fn lemma_scaled(scale: i32, factor: i32)
    requires
        -0x8000 <= scale <= 0x7FFF,
        -256 <= factor <= 256,
    ensures
        -0x80_0000 <= scale * factor <= 0x80_0000,
{
    assert(-0x80_0000 <= scale * factor <= 0x80_0000) by (nonlinear_arith)
        requires
            -0x8000 <= scale <= 0x7FFF,
            -256 <= factor <= 256,
    ;
}

/// The rotation/scaling matrix for scale `(sx, sy)` (8.8) and `theta`.
pub fn affine_matrix(sx: i32, sy: i32, theta: u16) -> (matrix: [i32; 4])
    requires
        -0x8000 <= sx <= 0x7FFF,
        -0x8000 <= sy <= 0x7FFF,
    ensures
        matrix@ == affine(sx, sy, theta),
{
    let (sin, cos) = sin_cos(theta);
    proof {
        lemma_scaled(sx, cos);
        lemma_scaled(sx, sin);
        lemma_scaled(sy, sin);
        lemma_scaled(sy, cos);
    }
    let matrix = [
        (sx * cos) >> 8u32,
        (-(sx * sin)) >> 8u32,
        (sy * sin) >> 8u32,
        (sy * cos) >> 8u32,
    ];
    assert(matrix@ =~= affine(sx, sy, theta));
    matrix
}

/// Fraction bits of the rotation constants.
pub const ROTATION_BITS: u32 = 56;

/// `cos` of half a 65536th of a turn.
pub const HALF_COS: i128 = 72_057_593_955_135_694;

/// `sin` of half a 65536th of a turn.
pub const HALF_SIN: i128 = 3_454_217_651_035;

/// `cos` of 2^j 65536ths of a turn.
pub const STEP_COS: [i128; 14] = [
    72_057_593_706_758_967, 72_057_592_713_252_061, 72_057_588_739_224_485,
    72_057_572_843_114_911, 72_057_509_258_688_306, 72_057_254_921_168_911,
    72_056_237_574_083_730, 72_052_168_233_621_211, 72_035_891_637_807_206,
    71_970_797_510_159_343, 71_710_617_027_291_437, 70_673_027_573_671_297,
    66_572_536_293_648_945, 50_952_413_380_206_181,
];

/// `sin` of 2^j 65536ths of a turn.
pub const STEP_SIN: [i128; 14] = [
    6_908_435_294_132, 13_816_870_524_763, 27_633_740_541_519,
    55_267_477_018_983, 110_534_921_525_533, 221_069_582_951_718,
    442_137_085_112_327, 884_257_524_013_297, 1_768_381_882_096_031,
    3_535_698_557_070_346, 7_062_879_306_626_092, 14_057_739_224_566_805,
    27_575_247_414_404_491, 50_952_413_380_206_181,
];

/// The vector `(x, y)` turned back by the angle with cosine `c` and sine
/// `s`.
pub open spec fn turned_back(x: i128, y: i128, c: i128, s: i128) -> (i128, i128) {
    (
        x.wrapping_mul(c).wrapping_add(y.wrapping_mul(s)) >> ROTATION_BITS,
        y.wrapping_mul(c).wrapping_sub(x.wrapping_mul(s)) >> ROTATION_BITS,
    )
}

fn turn_back(x: i128, y: i128, c: i128, s: i128) -> (out: (i128, i128))
    ensures
        out == turned_back(x, y, c, s),
{
    (
        x.wrapping_mul(c).wrapping_add(y.wrapping_mul(s)) >> ROTATION_BITS,
        y.wrapping_mul(c).wrapping_sub(x.wrapping_mul(s)) >> ROTATION_BITS,
    )
}

/// The angle of `(x, y)` in whole 65536ths of a turn, rounded down, below
/// 2^steps of them: the binary digits are found from the top, each by
/// turning the vector back by its weight and looking whether it is still
/// above the axis.
pub open spec fn angle_digits(x: i128, y: i128, steps: int) -> int
    decreases steps,
{
    if steps <= 0 {
        0
    } else {
        let j = steps - 1;
        let (nx, ny) = turned_back(x, y, STEP_COS@[j], STEP_SIN@[j]);
        if ny >= 0 {
            digit_weight(j) + angle_digits(nx, ny, j)
        } else {
            angle_digits(x, y, j)
        }
    }
}

/// 2^j.
pub open spec fn digit_weight(j: int) -> int
    decreases j,
{
    if j <= 0 {
        1
    } else {
        2 * digit_weight(j - 1)
    }
}

/// The angle of `(long, short)`, both scaled by 2^40, to the nearest 65536th
/// of a turn: the vector is first turned ahead by half of one.
#[verifier::opaque]
pub open spec fn octant_angle(long: int, short: int) -> int {
    let x = (long * 0x100_0000_0000) as i128;
    let y = (short * 0x100_0000_0000) as i128;
    let (ahead_x, ahead_y) = turned_back(x, y, HALF_COS, (-HALF_SIN) as i128);
    angle_digits(ahead_x, ahead_y, 14)
}

/// The magnitude of a 16-bit two's complement value.
pub open spec fn magnitude(v: int) -> int {
    if v < 0 {
        -v
    } else {
        v
    }
}

/// The angle of `(x, y)` to the nearest 65536th of a turn, from the angle in
/// the first octant and the symmetries of the circle.
pub open spec fn direction(x: int, y: int) -> int {
    let ax = magnitude(x);
    let ay = magnitude(y);
    let quadrant = if ax == 0 && ay == 0 {
        // The origin has no direction; it counts as pointing right.
        0
    } else if ay <= ax {
        octant_angle(ax, ay)
    } else {
        0x4000 - octant_angle(ay, ax)
    };
    let upper = if x < 0 {
        0x8000 - quadrant
    } else {
        quadrant
    };
    if y < 0 {
        -upper
    } else {
        upper
    }
}

/// The angle of `(long, short)` in the first octant.
fn octant(long: i128, short: i128) -> (angle: i32)
    requires
        0 <= short <= long <= 0x8000,
    ensures
        angle == octant_angle(long as int, short as int),
        0 <= angle < 0x4000,
{
    let scaled_long: i128 = long * 0x100_0000_0000;
    let scaled_short: i128 = short * 0x100_0000_0000;
    let (start_x, start_y) = turn_back(scaled_long, scaled_short, HALF_COS, -HALF_SIN);
    let mut x: i128 = start_x;
    let mut y: i128 = start_y;
    let mut angle: i32 = 0;
    let mut weight: i32 = 0x2000;
    let mut j: usize = 14;
    proof {
        reveal(octant_angle);
        reveal_with_fuel(digit_weight, 15);
        assert(digit_weight(13) == 0x2000);
    }
    while j > 0
        invariant
            j <= 14,
            j > 0 ==> weight == digit_weight(j - 1),
            j > 0 ==> 1 <= weight <= 0x2000,
            0 <= angle,
            j > 0 ==> angle + 2 * weight <= 0x4000,
            j == 0 ==> angle < 0x4000,
            angle_digits(start_x, start_y, 14) == angle + angle_digits(x, y, j as int),
        decreases j,
    {
        j = j - 1;
        let (nx, ny) = turn_back(x, y, STEP_COS[j], STEP_SIN[j]);
        if ny >= 0 {
            x = nx;
            y = ny;
            angle = angle + weight;
        }
        weight = weight / 2;
    }
    angle
}

/// `ArcTan2(x, y)`: the angle of `(x, y)` as a 16-bit fraction of a turn,
/// rounded to the nearest.
pub open spec fn arctan2_value(x: u16, y: u16) -> u32 {
    (direction((x as i16) as int, (y as i16) as int) % 0x1_0000) as u32
}

/// `ArcTan2(x, y)`: angle of `(x, y)` as a 16-bit fraction of a turn.
pub fn arctan2(x: u16, y: u16) -> (angle: u32)
    ensures
        angle == arctan2_value(x, y),
        angle <= 0xFFFF,
{
    let sx: i32 = x as i16 as i32;
    let sy: i32 = y as i16 as i32;
    let ax: i32 = if sx < 0 {
        -sx
    } else {
        sx
    };
    let ay: i32 = if sy < 0 {
        -sy
    } else {
        sy
    };
    let quadrant: i32 = if ax == 0 && ay == 0 {
        0
    } else if ay <= ax {
        octant(ax as i128, ay as i128)
    } else {
        0x4000 - octant(ay as i128, ax as i128)
    };
    let upper: i32 = if sx < 0 {
        0x8000 - quadrant
    } else {
        quadrant
    };
    let turns: i32 = if sy < 0 {
        -upper
    } else {
        upper
    };
    if turns < 0 {
        (turns + 0x1_0000) as u32
    } else {
        turns as u32
    }
}

} // verus!
