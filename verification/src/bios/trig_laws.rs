//! What ties the trigonometry down: its tables, and the directions it gives.

use vstd::prelude::*;

use crate::bios::trig::{
    angle_digits, digit_weight, direction, octant_angle, sine, turned_back, HALF_COS, HALF_SIN,
    STEP_COS, STEP_SIN,
};

verus! {

/// One, in the fixed point of the rotation tables.
pub const UNIT: i128 = 72_057_594_037_927_936;

/// Whether `(c, s)` is a point of the unit circle, up to rounding.
pub open spec fn on_circle(c: int, s: int) -> bool {
    -2 * UNIT <= c * c + s * s - UNIT * UNIT <= 2 * UNIT
}

/// Whether `(d, t)` is at twice the angle of `(c, s)`, up to rounding.
pub open spec fn doubled(c: int, s: int, d: int, t: int) -> bool {
    &&& -2 * UNIT <= c * c - s * s - UNIT * d <= 2 * UNIT
    &&& -2 * UNIT <= 2 * c * s - UNIT * t <= 2 * UNIT
}

/// The rotation tables hold what their names say: points of the unit circle
/// in the first octant, each at twice the angle of the one before, that start
/// from half of a 65536th of a turn and come to an eighth of a turn, where
/// sine and cosine are the same.
pub proof fn law_rotation_tables()
    ensures
        on_circle(HALF_COS as int, HALF_SIN as int),
        doubled(
            HALF_COS as int,
            HALF_SIN as int,
            STEP_COS@[0] as int,
            STEP_SIN@[0] as int,
        ),
        forall|j: int|
            0 <= j < 14 ==> #[trigger] on_circle(STEP_COS@[j] as int, STEP_SIN@[j] as int),
        forall|j: int|
            0 <= j < 13 ==> #[trigger] doubled(
                STEP_COS@[j] as int,
                STEP_SIN@[j] as int,
                STEP_COS@[j + 1] as int,
                STEP_SIN@[j + 1] as int,
            ),
        STEP_COS@[13] == STEP_SIN@[13],
        HALF_SIN > 0,
        forall|j: int| 0 <= j < 14 ==> 0 < #[trigger] STEP_SIN@[j] <= STEP_COS@[j] < UNIT,
{
    assert(on_circle(STEP_COS@[0] as int, STEP_SIN@[0] as int));
    assert(on_circle(STEP_COS@[1] as int, STEP_SIN@[1] as int));
    assert(on_circle(STEP_COS@[2] as int, STEP_SIN@[2] as int));
    assert(on_circle(STEP_COS@[3] as int, STEP_SIN@[3] as int));
    assert(on_circle(STEP_COS@[4] as int, STEP_SIN@[4] as int));
    assert(on_circle(STEP_COS@[5] as int, STEP_SIN@[5] as int));
    assert(on_circle(STEP_COS@[6] as int, STEP_SIN@[6] as int));
    assert(on_circle(STEP_COS@[7] as int, STEP_SIN@[7] as int));
    assert(on_circle(STEP_COS@[8] as int, STEP_SIN@[8] as int));
    assert(on_circle(STEP_COS@[9] as int, STEP_SIN@[9] as int));
    assert(on_circle(STEP_COS@[10] as int, STEP_SIN@[10] as int));
    assert(on_circle(STEP_COS@[11] as int, STEP_SIN@[11] as int));
    assert(on_circle(STEP_COS@[12] as int, STEP_SIN@[12] as int));
    assert(on_circle(STEP_COS@[13] as int, STEP_SIN@[13] as int));
    assert(doubled(
        STEP_COS@[0] as int,
        STEP_SIN@[0] as int,
        STEP_COS@[1] as int,
        STEP_SIN@[1] as int,
    ));
    assert(doubled(
        STEP_COS@[1] as int,
        STEP_SIN@[1] as int,
        STEP_COS@[2] as int,
        STEP_SIN@[2] as int,
    ));
    assert(doubled(
        STEP_COS@[2] as int,
        STEP_SIN@[2] as int,
        STEP_COS@[3] as int,
        STEP_SIN@[3] as int,
    ));
    assert(doubled(
        STEP_COS@[3] as int,
        STEP_SIN@[3] as int,
        STEP_COS@[4] as int,
        STEP_SIN@[4] as int,
    ));
    assert(doubled(
        STEP_COS@[4] as int,
        STEP_SIN@[4] as int,
        STEP_COS@[5] as int,
        STEP_SIN@[5] as int,
    ));
    assert(doubled(
        STEP_COS@[5] as int,
        STEP_SIN@[5] as int,
        STEP_COS@[6] as int,
        STEP_SIN@[6] as int,
    ));
    assert(doubled(
        STEP_COS@[6] as int,
        STEP_SIN@[6] as int,
        STEP_COS@[7] as int,
        STEP_SIN@[7] as int,
    ));
    assert(doubled(
        STEP_COS@[7] as int,
        STEP_SIN@[7] as int,
        STEP_COS@[8] as int,
        STEP_SIN@[8] as int,
    ));
    assert(doubled(
        STEP_COS@[8] as int,
        STEP_SIN@[8] as int,
        STEP_COS@[9] as int,
        STEP_SIN@[9] as int,
    ));
    assert(doubled(
        STEP_COS@[9] as int,
        STEP_SIN@[9] as int,
        STEP_COS@[10] as int,
        STEP_SIN@[10] as int,
    ));
    assert(doubled(
        STEP_COS@[10] as int,
        STEP_SIN@[10] as int,
        STEP_COS@[11] as int,
        STEP_SIN@[11] as int,
    ));
    assert(doubled(
        STEP_COS@[11] as int,
        STEP_SIN@[11] as int,
        STEP_COS@[12] as int,
        STEP_SIN@[12] as int,
    ));
    assert(doubled(
        STEP_COS@[12] as int,
        STEP_SIN@[12] as int,
        STEP_COS@[13] as int,
        STEP_SIN@[13] as int,
    ));
    assert forall|j: int| 0 <= j < 14 implies #[trigger] on_circle(
        STEP_COS@[j] as int,
        STEP_SIN@[j] as int,
    ) by {
        lemma_below_14(j);
    }
    assert forall|j: int| 0 <= j < 13 implies #[trigger] doubled(
        STEP_COS@[j] as int,
        STEP_SIN@[j] as int,
        STEP_COS@[j + 1] as int,
        STEP_SIN@[j + 1] as int,
    ) by {
        lemma_below_14(j);
    }
}

/// The numbers below 14, one by one.
proof fn lemma_below_14(j: int)
    requires
        0 <= j < 14,
    ensures
        j == 0 || j == 1 || j == 2 || j == 3 || j == 4 || j == 5 || j == 6 || j == 7 || j == 8 || j
            == 9 || j == 10 || j == 11 || j == 12 || j == 13,
{
}

/// A shift to the right divides, rounding down.
proof fn lemma_shift(v: i128)
    by (bit_vector)
    requires
        -0x200_0000_0000_0000_0000_0000_0000_0000i128 <= v,
        v <= 0x200_0000_0000_0000_0000_0000_0000_0000i128,
    ensures
        (v >> 56u32) * 72_057_594_037_927_936i128 <= v,
        v - (v >> 56u32) * 72_057_594_037_927_936i128 < 72_057_594_037_927_936i128,
{
}

/// A product of numbers of at most one, in fixed point, fits.
proof fn lemma_product(x: i128, c: i128)
    requires
        -UNIT <= x <= UNIT,
        -UNIT <= c <= UNIT,
    ensures
        -UNIT * UNIT <= x * c <= UNIT * UNIT,
        x.wrapping_mul(c) == x * c,
{
    assert(-UNIT * UNIT <= x * c <= UNIT * UNIT) by (nonlinear_arith)
        requires
            -UNIT <= x <= UNIT,
            -UNIT <= c <= UNIT,
    ;
    assert(UNIT * UNIT == 5_192_296_858_534_827_628_530_496_329_220_096);
}

/// Turning back is multiplying out, rounded down.
proof fn lemma_turned_back(x: i128, y: i128, c: i128, s: i128)
    requires
        -UNIT <= x <= UNIT,
        -UNIT <= y <= UNIT,
        -UNIT <= c <= UNIT,
        -UNIT <= s <= UNIT,
    ensures
        ({
            let (nx, ny) = turned_back(x, y, c, s);
            &&& nx * UNIT <= x * c + y * s < (nx + 1) * UNIT
            &&& ny * UNIT <= y * c - x * s < (ny + 1) * UNIT
        }),
{
    lemma_product(x, c);
    lemma_product(y, s);
    lemma_product(y, c);
    lemma_product(x, s);
    assert(UNIT * UNIT == 5_192_296_858_534_827_628_530_496_329_220_096);
    let p = x.wrapping_mul(c).wrapping_add(y.wrapping_mul(s));
    let q = y.wrapping_mul(c).wrapping_sub(x.wrapping_mul(s));
    assert(p == x * c + y * s);
    assert(q == y * c - x * s);
    lemma_shift(p);
    lemma_shift(q);
}

/// A vector that is closer to the axis than the smallest step has no digits.
proof fn lemma_no_digits(x: i128, y: i128, steps: int)
    requires
        0 <= x <= UNIT,
        0 <= y <= UNIT,
        y * STEP_COS@[0] < x * STEP_SIN@[0],
        0 <= steps <= 14,
    ensures
        angle_digits(x, y, steps) == 0,
    decreases steps,
{
    if steps > 0 {
        let j = steps - 1;
        let (c, s) = (STEP_COS@[j], STEP_SIN@[j]);
        assert(0 <= c <= STEP_COS@[0] && STEP_SIN@[0] <= s <= UNIT) by {
            lemma_below_14(j);
        }
        assert(STEP_COS@[0] <= UNIT);
        lemma_turned_back(x, y, c, s);
        assert(y * c <= y * STEP_COS@[0]) by (nonlinear_arith)
            requires
                y >= 0,
                c <= STEP_COS@[0],
        ;
        assert(x * STEP_SIN@[0] <= x * s) by (nonlinear_arith)
            requires
                x >= 0,
                STEP_SIN@[0] <= s,
        ;
        let ny = turned_back(x, y, c, s).1;
        assert(ny < 0);
        lemma_no_digits(x, y, j);
    }
}

/// Digits below 2^steps.
proof fn lemma_digits_bound(x: i128, y: i128, steps: int)
    requires
        0 <= steps,
    ensures
        0 <= angle_digits(x, y, steps) < digit_weight(steps),
    decreases steps,
{
    if steps > 0 {
        let j = steps - 1;
        let (nx, ny) = turned_back(x, y, STEP_COS@[j], STEP_SIN@[j]);
        lemma_digits_bound(x, y, j);
        lemma_digits_bound(nx, ny, j);
    }
}

/// The angle of a vector of the first octant: none on the axis, an eighth of a
/// turn on the diagonal, and nowhere more.
proof fn lemma_octant(long: int, short: int)
    requires
        0 <= short <= long <= 0x8000,
        1 <= long,
    ensures
        0 <= octant_angle(long, short) <= 0x2000,
        short == 0 ==> octant_angle(long, short) == 0,
        short == long ==> octant_angle(long, short) == 0x2000,
{
    reveal(octant_angle);
    reveal_with_fuel(digit_weight, 15);
    let x = (long * 0x100_0000_0000) as i128;
    let y = (short * 0x100_0000_0000) as i128;
    lemma_turned_back(x, y, HALF_COS, (-HALF_SIN) as i128);
    let (ax, ay) = turned_back(x, y, HALF_COS, (-HALF_SIN) as i128);
    let back = (-HALF_SIN) as i128;
    assert(x * back == -(x * HALF_SIN) && y * back == -(y * HALF_SIN)) by (nonlinear_arith)
        requires
            back == -HALF_SIN,
    ;
    assert(ax * UNIT <= x * HALF_COS - y * HALF_SIN < (ax + 1) * UNIT);
    assert(ay * UNIT <= y * HALF_COS + x * HALF_SIN < (ay + 1) * UNIT);
    assert(0 <= ax <= UNIT && 0 <= ay <= UNIT);
    let (c, s) = (STEP_COS@[13], STEP_SIN@[13]);
    lemma_turned_back(ax, ay, c, s);
    let (nx, ny) = turned_back(ax, ay, c, s);
    assert(nx * UNIT <= ax * c + ay * c < (nx + 1) * UNIT);
    assert(ny * UNIT <= ay * c - ax * c < (ny + 1) * UNIT);
    lemma_digits_bound(ax, ay, 13);
    if ny >= 0 {
        assert(0 <= nx <= UNIT && 0 <= ny <= UNIT);
        assert(ny * STEP_COS@[0] < nx * STEP_SIN@[0]);
        lemma_no_digits(nx, ny, 13);
    }
    if short == 0 {
        lemma_no_digits(ax, ay, 14);
    }
    if short == long {
        assert(ny >= 0);
    }
}

/// The directions along the axes and the diagonals, whatever the length of
/// the vector.
pub proof fn law_axes_and_diagonals(n: int)
    requires
        1 <= n <= 0x8000,
    ensures
        direction(0, 0) == 0,
        direction(n, 0) == 0,
        direction(n, n) == 0x2000,
        direction(0, n) == 0x4000,
        direction(-n, n) == 0x6000,
        direction(-n, 0) == 0x8000,
        direction(-n, -n) == -0x6000,
        direction(0, -n) == -0x4000,
        direction(n, -n) == -0x2000,
{
    lemma_octant(n, 0);
    lemma_octant(n, n);
}

/// Mirroring a vector mirrors its direction: at the horizontal axis, at the
/// vertical one, and at the diagonal.
pub proof fn law_direction_symmetries(x: int, y: int)
    requires
        -0x8000 <= x <= 0x8000,
        -0x8000 <= y <= 0x8000,
        x != 0 || y != 0,
    ensures
        y != 0 ==> direction(x, -y) == -direction(x, y),
        x != 0 && y >= 0 ==> direction(-x, y) == 0x8000 - direction(x, y),
        x >= 0 && y >= 0 ==> direction(y, x) == 0x4000 - direction(x, y),
{
    if x >= 0 && x == y {
        lemma_octant(x, x);
    }
}

/// A direction lies in the octant of its vector.
pub proof fn law_direction_octants(x: int, y: int)
    requires
        -0x8000 <= x <= 0x8000,
        0 <= y <= 0x8000,
        x != 0 || y != 0,
    ensures
        0 <= direction(x, y) <= 0x8000,
        x >= y ==> direction(x, y) <= 0x2000,
        0 <= x <= y ==> 0x2000 <= direction(x, y) <= 0x4000,
        x <= 0 && -x <= y ==> 0x4000 <= direction(x, y) <= 0x6000,
        x <= 0 && y <= -x ==> 0x6000 <= direction(x, y),
{
    let ax = if x < 0 {
        -x
    } else {
        x
    };
    if y <= ax {
        lemma_octant(ax, y);
    } else {
        lemma_octant(y, ax);
    }
}

/// The sine starts at nothing, comes to one after a quarter turn, mirrors at
/// the quarter turn, and is turned over by half a turn.
pub proof fn law_sine_symmetries(theta: int)
    requires
        0 <= theta <= 128,
    ensures
        sine(0) == 0,
        sine(64) == 256,
        sine(128 - theta) == sine(theta),
        sine((theta + 128) % 256) == -sine(theta),
{
}

} // verus!
