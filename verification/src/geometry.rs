//! Geometry primitives: 2D vectors, angle normalization, fixed-point
//! trigonometry, Euclidean distance, and the closed-form per-cell ray
//! cast that the whole engine is built on.

use vstd::prelude::*;
use crate::fixed::{
    abs_int, clamp_fx, fx_add, fx_div, fx_div_spec, fx_mul, fx_mul_spec, fx_sub, in_fx_range,
    lemma_mul_le, FX_LIMIT, FX_SCALE,
};

verus! {

/// A plain 2D vector over any numeric kind: integer cell or screen
/// coordinates, or fixed-point world coordinates.
#[derive(Clone, Copy)]
pub struct Vec2<T> {
    pub x: T,
    pub y: T,
}

/// One full turn, in fixed-point radians.
pub const TWO_PI: i64 = 6_283_185;

/// Half a turn, in fixed-point radians.
pub const PI_FX: i64 = 3_141_593;

/// A quarter turn, in fixed-point radians.
pub const HALF_PI: i64 = 1_570_796;

/// The distance by which a computed boundary exit point is nudged past
/// the boundary, so that the next cell lookup cannot land exactly on it.
pub const EPSILON: i64 = 50_000;

/// One degree, in fixed-point radians.
pub const RADIAN: i64 = 17_453;

/// Both coordinates lie in the fixed-point saturation range.
pub open spec fn wf_vec2_fx(v: Vec2<i64>) -> bool {
    in_fx_range(v.x as int) && in_fx_range(v.y as int)
}

/// The angle shifted by whole turns until it lies in `[0, TWO_PI]`.
/// An angle of exactly `TWO_PI` is left as it is, not wrapped to zero.
pub open spec fn normalize_angle_spec(a: int) -> int
    decreases (if a < 0 { TWO_PI - a } else { a }),
{
    if a < 0 {
        normalize_angle_spec(a + TWO_PI)
    } else if a > TWO_PI {
        normalize_angle_spec(a - TWO_PI)
    } else {
        a
    }
}

/// A normalized angle always lies in `[0, TWO_PI]`.
pub proof fn lemma_normalize_range(a: int)
    ensures
        0 <= normalize_angle_spec(a) <= TWO_PI,
    decreases (if a < 0 { TWO_PI - a } else { a }),
{
    if a < 0 {
        lemma_normalize_range(a + TWO_PI);
    } else if a > TWO_PI {
        lemma_normalize_range(a - TWO_PI);
    }
}

/// Normalizing is idempotent: a second normalization changes nothing.
pub proof fn lemma_normalize_idempotent(a: int)
    ensures
        normalize_angle_spec(normalize_angle_spec(a)) == normalize_angle_spec(a),
{
    lemma_normalize_range(a);
}

/// Shift `angle` by whole turns until it lies in `[0, TWO_PI]`.
pub fn normalize_angle(angle: i64) -> (r: i64)
    ensures
        r as int == normalize_angle_spec(angle as int),
        0 <= r <= TWO_PI,
{
    let mut a = angle;
    while a < 0
        invariant
            normalize_angle_spec(a as int) == normalize_angle_spec(angle as int),
        decreases (if a < 0 { TWO_PI - a as int } else { a as int }),
    {
        a = a + TWO_PI;
    }
    while a > TWO_PI
        invariant
            a >= 0,
            normalize_angle_spec(a as int) == normalize_angle_spec(angle as int),
        decreases a as int,
    {
        a = a - TWO_PI;
    }
    a
}

/// Taylor polynomial for sine of a first-quadrant angle, in fixed point:
/// `t - t^3/6 + t^5/120` with each term scaled back to `FX_SCALE`.
pub open spec fn sin_q_spec(t: int) -> int {
    t - (t * t * t) / 6_000_000_000_000 + (t * t * t * t * t)
        / 120_000_000_000_000_000_000_000_000
}

/// Taylor polynomial for cosine of a first-quadrant angle, in fixed point:
/// `1 - t^2/2 + t^4/24 - t^6/720` with each term scaled back to `FX_SCALE`.
pub open spec fn cos_q_spec(t: int) -> int {
    1_000_000 + (t * t * t * t) / 24_000_000_000_000_000_000 - (t * t) / 2_000_000 - (t * t * t
        * t * t * t) / 720_000_000_000_000_000_000_000_000_000_000
}

/// Sine of a first-quadrant angle by its Taylor polynomial.
fn sin_q(t: i64) -> (r: i64)
    requires
        0 <= t <= 1_570_797,
    ensures
        r == sin_q_spec(t as int),
        0 <= r <= 2_000_000,
{
    let tu = t as u128;
    proof {
        lemma_mul_le(tu as int, tu as int, 1_570_797, 1_570_797);
        lemma_mul_le(tu as int * tu as int, tu as int, 1_570_797int * 1_570_797int, 1_570_797);
        lemma_mul_le(
            tu as int * tu as int * tu as int,
            tu as int * tu as int,
            1_570_797int * 1_570_797int * 1_570_797int,
            1_570_797int * 1_570_797int,
        );
    }
    let t2 = tu * tu;
    let t3 = t2 * tu;
    let t5 = t3 * t2;
    let a3 = t3 / 6_000_000_000_000;
    let a5 = t5 / 120_000_000_000_000_000_000_000_000;
    proof {
        assert(t3 <= 6_000_000_000_000 * tu) by (nonlinear_arith)
            requires
                t3 == (tu * tu) * tu,
                tu * tu < 6_000_000_000_000,
                0 <= tu,
        ;
        assert(a3 <= tu) by (nonlinear_arith)
            requires
                a3 == t3 / 6_000_000_000_000,
                t3 <= 6_000_000_000_000 * tu,
                0 <= t3,
        ;
    }
    proof {
        assert(t5 == (t as int) * (t as int) * (t as int) * (t as int) * (t as int))
            by (nonlinear_arith)
            requires
                t5 == t3 * t2,
                t3 == t2 * tu,
                t2 == tu * tu,
                tu == t as int,
        ;
    }
    let s = tu - a3 + a5;
    s as i64
}

/// Cosine of a first-quadrant angle by its Taylor polynomial.
fn cos_q(t: i64) -> (r: i64)
    requires
        0 <= t <= 1_570_797,
    ensures
        r == cos_q_spec(t as int),
        -2_000_000 <= r <= 2_000_000,
{
    let tu = t as u128;
    proof {
        lemma_mul_le(tu as int, tu as int, 1_570_797, 1_570_797);
        lemma_mul_le(
            tu as int * tu as int,
            tu as int * tu as int,
            1_570_797int * 1_570_797int,
            1_570_797int * 1_570_797int,
        );
        lemma_mul_le(
            tu as int * tu as int * (tu as int * tu as int),
            tu as int * tu as int,
            1_570_797int * 1_570_797int * (1_570_797int * 1_570_797int),
            1_570_797int * 1_570_797int,
        );
    }
    let t2 = tu * tu;
    let t4 = t2 * t2;
    let t6 = t4 * t2;
    let c2 = t2 / 2_000_000;
    let c4 = t4 / 24_000_000_000_000_000_000;
    let c6 = t6 / 720_000_000_000_000_000_000_000_000_000_000;
    let pos = 1_000_000 + c4;
    let neg = c2 + c6;
    proof {
        assert(t4 == (t as int) * (t as int) * (t as int) * (t as int)) by (nonlinear_arith)
            requires
                t4 == t2 * t2,
                t2 == tu * tu,
                tu == t as int,
        ;
        assert(t6 == (t as int) * (t as int) * (t as int) * (t as int) * (t as int) * (t as int))
            by (nonlinear_arith)
            requires
                t6 == t4 * t2,
                t4 == (t as int) * (t as int) * (t as int) * (t as int),
                t2 == tu * tu,
                tu == t as int,
        ;
    }
    pos as i64 - neg as i64
}

/// Tangent of an angle, in fixed point: the angle is normalized, reduced
/// to the first quadrant, and the quotient of the two Taylor polynomials
/// is taken with the signs the quadrant dictates. A vanishing cosine
/// saturates, standing in for an infinite tangent.
pub open spec fn tan_spec(a: int) -> int {
    let n = normalize_angle_spec(a);
    if n <= HALF_PI {
        fx_div_spec(sin_q_spec(n), cos_q_spec(n))
    } else if n <= PI_FX {
        fx_div_spec(sin_q_spec(PI_FX - n), -cos_q_spec(PI_FX - n))
    } else if n <= PI_FX + HALF_PI {
        fx_div_spec(-sin_q_spec(n - PI_FX), -cos_q_spec(n - PI_FX))
    } else {
        fx_div_spec(-sin_q_spec(TWO_PI - n), cos_q_spec(TWO_PI - n))
    }
}

/// Fixed-point tangent of any angle.
pub fn tan_fx(angle: i64) -> (r: i64)
    ensures
        r == tan_spec(angle as int),
        in_fx_range(r as int),
{
    let n = normalize_angle(angle);
    if n <= HALF_PI {
        let s = sin_q(n);
        let c = cos_q(n);
        fx_div(s, c)
    } else if n <= PI_FX {
        let s = sin_q(PI_FX - n);
        let c = cos_q(PI_FX - n);
        fx_div(s, -c)
    } else if n <= PI_FX + HALF_PI {
        let s = sin_q(n - PI_FX);
        let c = cos_q(n - PI_FX);
        fx_div(-s, -c)
    } else {
        let s = sin_q(TWO_PI - n);
        let c = cos_q(TWO_PI - n);
        fx_div(-s, c)
    }
}

/// Which pair of cell boundaries a ray exited through: a vertical
/// boundary (left/right, `OnX`) or a horizontal one (top/bottom, `OnY`).
#[derive(Clone, Copy, PartialEq, Eq, Structural)]
pub enum Axis {
    OnX,
    OnY,
}

/// The exit point and axis that `cast_ray` computes, stated over plain
/// integers: the two boundary candidates are projected with the tangent,
/// the horizontal candidate is taken whenever its x-coordinate falls
/// within the cell's span, and the chosen point is nudged `EPSILON` past
/// the boundary in the direction of travel on both axes.
pub open spec fn cast_ray_spec(
    spx: int,
    spy: int,
    pitch: int,
    tlx: int,
    tly: int,
    xb: int,
    yb: int,
) -> (int, int, Axis) {
    let relx = clamp_fx(spx - tlx);
    let rely = clamp_fx(spy - tly);
    let upper = !(pitch > HALF_PI && pitch < PI_FX + HALF_PI);
    let yres = if upper {
        (clamp_fx(spx + fx_mul_spec(tan_spec(pitch), rely)), clamp_fx(spy - rely))
    } else {
        let o = fx_mul_spec(tan_spec(pitch + PI_FX), clamp_fx(yb - rely));
        (clamp_fx(spx - o), clamp_fx(clamp_fx(spy - rely) + yb))
    };
    let right = pitch < PI_FX && pitch > 0;
    let xres = if right {
        let o = fx_mul_spec(tan_spec(pitch - HALF_PI), clamp_fx(xb - relx));
        (clamp_fx(clamp_fx(spx - relx) + xb), clamp_fx(spy + o))
    } else {
        let o = fx_mul_spec(tan_spec(pitch - PI_FX - HALF_PI), relx);
        (clamp_fx(spx - relx), clamp_fx(spy - o))
    };
    let on_y = tlx <= yres.0 && yres.0 <= clamp_fx(tlx + xb);
    let sel = if on_y {
        yres
    } else {
        xres
    };
    let py = if upper {
        clamp_fx(sel.1 - EPSILON)
    } else {
        clamp_fx(sel.1 + EPSILON)
    };
    let px = if right {
        clamp_fx(sel.0 + EPSILON)
    } else {
        clamp_fx(sel.0 - EPSILON)
    };
    (
        px,
        py,
        if on_y {
            Axis::OnY
        } else {
            Axis::OnX
        },
    )
}

/// Given a ray origin, its heading, and the axis-aligned rectangle of the
/// cell containing the origin, compute the point where the ray exits the
/// rectangle and through which kind of boundary it does so.
pub fn cast_ray(
    starting_pos: Vec2<i64>,
    pitch: i64,
    boundry_top_left: Vec2<i64>,
    x_boundry: i64,
    y_boundry: i64,
) -> (r: (Vec2<i64>, Axis))
    requires
        in_fx_range(pitch as int),
    ensures
        ({
            let (px, py, ax) = cast_ray_spec(
                starting_pos.x as int,
                starting_pos.y as int,
                pitch as int,
                boundry_top_left.x as int,
                boundry_top_left.y as int,
                x_boundry as int,
                y_boundry as int,
            );
            r.0.x == px && r.0.y == py && r.1 == ax
        }),
        wf_vec2_fx(r.0),
{
    let relx = fx_sub(starting_pos.x, boundry_top_left.x);
    let rely = fx_sub(starting_pos.y, boundry_top_left.y);

    // Horizontal-boundary candidate: project toward the top edge when the
    // heading points into the upper half-plane, else toward the bottom.
    let upper = !(pitch > HALF_PI && pitch < PI_FX + HALF_PI);
    let yres: Vec2<i64> = if upper {
        let o = fx_mul(tan_fx(pitch), rely);
        Vec2 { x: fx_add(starting_pos.x, o), y: fx_sub(starting_pos.y, rely) }
    } else {
        let o = fx_mul(tan_fx(pitch + PI_FX), fx_sub(y_boundry, rely));
        Vec2 { x: fx_sub(starting_pos.x, o), y: fx_add(fx_sub(starting_pos.y, rely), y_boundry) }
    };

    // Vertical-boundary candidate: toward the right edge when the heading
    // points into the right half-plane, else toward the left.
    let right = pitch < PI_FX && pitch > 0;
    let xres: Vec2<i64> = if right {
        let o = fx_mul(tan_fx(pitch - HALF_PI), fx_sub(x_boundry, relx));
        Vec2 { x: fx_add(fx_sub(starting_pos.x, relx), x_boundry), y: fx_add(starting_pos.y, o) }
    } else {
        let o = fx_mul(tan_fx(pitch - PI_FX - HALF_PI), relx);
        Vec2 { x: fx_sub(starting_pos.x, relx), y: fx_sub(starting_pos.y, o) }
    };

    // The horizontal candidate wins whenever its x-coordinate lies within
    // the cell's span; ties at a corner go to the horizontal boundary.
    let on_y = boundry_top_left.x <= yres.x && yres.x <= fx_add(boundry_top_left.x, x_boundry);
    let mut final_pos = if on_y {
        yres
    } else {
        xres
    };
    let final_axis = if on_y {
        Axis::OnY
    } else {
        Axis::OnX
    };

    // Nudge the exit point past the boundary in the direction of travel,
    // so the next cell lookup cannot land exactly on the border.
    if upper {
        final_pos.y = fx_sub(final_pos.y, EPSILON);
    } else {
        final_pos.y = fx_add(final_pos.y, EPSILON);
    }
    if right {
        final_pos.x = fx_add(final_pos.x, EPSILON);
    } else {
        final_pos.x = fx_sub(final_pos.x, EPSILON);
    }

    (final_pos, final_axis)
}

/// A ray exits the rectangle on its boundary: the coordinate across the
/// struck boundary sits exactly on an edge, displaced only by the fixed
/// nudge, and a horizontal-boundary hit keeps its x-coordinate within the
/// edge's span, again up to the nudge. The axis names the boundary kind.
pub proof fn lemma_cast_ray_on_boundary(
    spx: int,
    spy: int,
    pitch: int,
    tlx: int,
    tly: int,
    xb: int,
    yb: int,
)
    requires
        abs_int(spx) <= FX_LIMIT / 4,
        abs_int(spy) <= FX_LIMIT / 4,
        abs_int(tlx) <= FX_LIMIT / 4,
        abs_int(tly) <= FX_LIMIT / 4,
        0 < xb <= FX_LIMIT / 4,
        0 < yb <= FX_LIMIT / 4,
    ensures
        ({
            let (px, py, ax) = cast_ray_spec(spx, spy, pitch, tlx, tly, xb, yb);
            &&& ax == Axis::OnY ==> (py == tly - EPSILON || py == tly + yb + EPSILON) && tlx
                - EPSILON <= px <= tlx + xb + EPSILON
            &&& ax == Axis::OnX ==> (px == tlx - EPSILON || px == tlx + xb + EPSILON)
        }),
{
}

/// Integer square root by binary search: the greatest `r` with `r * r <= n`.
fn isqrt_u128(n: u128) -> (r: u128)
    requires
        n < 316_912_650_057_057_350_374_175_801_344,  // 2^98
    ensures
        r * r <= n < (r + 1) * (r + 1),
{
    if n == 0 {
        return 0;
    }
    let mut lo: u128 = 0;
    let mut hi: u128 = 562_949_953_421_312;  // 2^49
    proof {
        lemma_mul_le(hi as int, hi as int, 562_949_953_421_312, 562_949_953_421_312);
    }
    while lo + 1 < hi
        invariant
            lo * lo <= n,
            n < hi * hi,
            lo < hi,
            hi <= 562_949_953_421_312,
        decreases hi - lo,
    {
        let mid = lo + (hi - lo) / 2;
        proof {
            lemma_mul_le(mid as int, mid as int, 562_949_953_421_312, 562_949_953_421_312);
        }
        if mid * mid <= n {
            lo = mid;
        } else {
            hi = mid;
        }
    }
    lo
}

/// `r` is the integer square root of `n`.
pub open spec fn is_sqrt(n: int, r: int) -> bool {
    0 <= r && r * r <= n && n < (r + 1) * (r + 1)
}

/// The integer square root of a nonnegative value.
pub open spec fn sqrt_of(n: int) -> int {
    choose|r: int| is_sqrt(n, r)
}

/// An integer square root is unique.
proof fn lemma_sqrt_unique(n: int, a: int, b: int)
    requires
        is_sqrt(n, a),
        is_sqrt(n, b),
    ensures
        a == b,
{
    assert(a == b) by (nonlinear_arith)
        requires
            0 <= a,
            0 <= b,
            a * a <= n,
            n < (a + 1) * (a + 1),
            b * b <= n,
            n < (b + 1) * (b + 1),
    ;
}

/// The Euclidean distance between two fixed-point points, in fixed point.
pub open spec fn distance_spec(p1x: int, p1y: int, p2x: int, p2y: int) -> int {
    sqrt_of((p2x - p1x) * (p2x - p1x) + (p2y - p1y) * (p2y - p1y))
}

/// Euclidean distance between two fixed-point points, pinned exactly as
/// the integer square root of the squared coordinate differences.
pub fn points_distance(pos1: Vec2<i64>, pos2: Vec2<i64>) -> (r: i64)
    requires
        wf_vec2_fx(pos1),
        wf_vec2_fx(pos2),
    ensures
        r == distance_spec(pos1.x as int, pos1.y as int, pos2.x as int, pos2.y as int),
        ({
            let d = (pos2.x - pos1.x) * (pos2.x - pos1.x) + (pos2.y - pos1.y) * (pos2.y
                - pos1.y);
            r * r <= d < (r + 1) * (r + 1)
        }),
        0 <= r <= 400_000_000_000_000,
{
    let dx: i128 = pos2.x as i128 - pos1.x as i128;
    let dy: i128 = pos2.y as i128 - pos1.y as i128;
    proof {
        lemma_mul_le(abs_int(dx as int), abs_int(dx as int), 2 * FX_LIMIT, 2 * FX_LIMIT);
        lemma_mul_le(abs_int(dy as int), abs_int(dy as int), 2 * FX_LIMIT, 2 * FX_LIMIT);
        assert(dx * dx == abs_int(dx as int) * abs_int(dx as int)) by (nonlinear_arith);
        assert(dy * dy == abs_int(dy as int) * abs_int(dy as int)) by (nonlinear_arith);
    }
    let sq: u128 = (dx * dx) as u128 + (dy * dy) as u128;
    let r = isqrt_u128(sq);
    proof {
        assert(r <= 400_000_000_000_000) by (nonlinear_arith)
            requires
                r * r <= sq,
                sq <= 2 * ((2 * FX_LIMIT) * (2 * FX_LIMIT)),
        ;
        let d = (pos2.x - pos1.x) * (pos2.x - pos1.x) + (pos2.y - pos1.y) * (pos2.y - pos1.y);
        assert(is_sqrt(d, r as int));
        lemma_sqrt_unique(d, r as int, sqrt_of(d));
    }
    r as i64
}

/// Round a nonnegative fixed-point value up to a whole number of world
/// units.
pub fn fx_ceil_units(a: i64) -> (r: i64)
    requires
        0 <= a <= 500_000_000_000_000,
    ensures
        r == ((a + FX_SCALE - 1) / (FX_SCALE as int)) * (FX_SCALE as int),
        0 <= r <= a + FX_SCALE,
{
    ((a + FX_SCALE - 1) / FX_SCALE) * FX_SCALE
}

} // verus!
