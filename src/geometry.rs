//! Integer plane vectors, the rectangular arena and its wraparound, and the
//! clamping of a vector's length.

use crate::arith::{ceil_sqrt, ceil_sqrt_of, SQRT_START};
use vstd::prelude::*;

verus! {

/// Fixed-point scale of direction vectors: a unit vector has length `UNIT`.
pub const UNIT: i64 = 1000000;

/// Bound on the magnitude of every coordinate, speed and rate that the
/// kinematics accepts; it keeps all intermediate products exact.
pub const MAGNITUDE_LIMIT: i64 = 1000000000000;

/// A vector of the plane with integer coordinates.
#[derive(Clone, Copy, Debug, PartialEq, Eq, Structural)]
pub struct Vec2 {
    pub x: i64,
    pub y: i64,
}

/// `|v| <= bound` for an integer and a non-negative bound.
pub open spec fn abs_within(v: int, bound: int) -> bool {
    -bound <= v <= bound
}

impl Vec2 {
    /// Both coordinates lie within `bound` of zero.
    pub open spec fn within(self, bound: int) -> bool {
        abs_within(self.x as int, bound) && abs_within(self.y as int, bound)
    }

    /// Squared Euclidean length.
    pub open spec fn length_sq(self) -> int {
        self.x * self.x + self.y * self.y
    }

    /// A direction in fixed point: each coordinate of magnitude at most `UNIT`.
    pub open spec fn is_direction(self) -> bool {
        self.within(UNIT as int)
    }

    pub fn new(x: i64, y: i64) -> (r: Vec2)
        ensures
            r.x == x,
            r.y == y,
    {
        Vec2 { x, y }
    }

    pub fn zero() -> (r: Vec2)
        ensures
            r.x == 0,
            r.y == 0,
    {
        Vec2 { x: 0, y: 0 }
    }
}

/// The rectangle `[left, right] x [bottom, top]` on which the ship lives.
#[derive(Clone, Copy, Debug, PartialEq, Eq, Structural)]
pub struct Arena {
    pub left: i64,
    pub right: i64,
    pub bottom: i64,
    pub top: i64,
}

impl Arena {
    /// The bounds are ordered and within the magnitude limit.
    pub open spec fn wf(self) -> bool {
        &&& self.left <= self.right
        &&& self.bottom <= self.top
        &&& abs_within(self.left as int, MAGNITUDE_LIMIT as int)
        &&& abs_within(self.right as int, MAGNITUDE_LIMIT as int)
        &&& abs_within(self.bottom as int, MAGNITUDE_LIMIT as int)
        &&& abs_within(self.top as int, MAGNITUDE_LIMIT as int)
    }

    /// `p` lies inside the arena, borders included.
    pub open spec fn contains(self, p: Vec2) -> bool {
        self.left <= p.x <= self.right && self.bottom <= p.y <= self.top
    }

    /// An arena from its four walls; `None` when they are out of order or
    /// beyond the magnitude limit.
    pub fn new(left: i64, right: i64, bottom: i64, top: i64) -> (r: Option<Arena>)
        ensures
            r matches Some(a) ==> a.wf() && a == (Arena { left, right, bottom, top }),
            r is None <==> !(Arena { left, right, bottom, top }).wf(),
    {
        if left <= right && bottom <= top && -MAGNITUDE_LIMIT <= left && right <= MAGNITUDE_LIMIT
            && -MAGNITUDE_LIMIT <= bottom && top <= MAGNITUDE_LIMIT {
            Some(Arena { left, right, bottom, top })
        } else {
            None
        }
    }
}

/// Teleporting wrap of one coordinate: past the high wall it lands on the
/// low wall, past the low wall on the high wall, and otherwise stays.
pub open spec fn wrap_axis(value: int, low: int, high: int) -> int {
    if value < low {
        high
    } else if value > high {
        low
    } else {
        value
    }
}

/// Wraps one coordinate between two walls.
pub fn wrap_coordinate(value: i128, low: i64, high: i64) -> (r: i64)
    requires
        low <= high,
    ensures
        r == wrap_axis(value as int, low as int, high as int),
        low <= r <= high,
{
    if value < low as i128 {
        high
    } else if value > high as i128 {
        low
    } else {
        value as i64
    }
}

/// A point wrapped into the arena, each axis on its own.
pub open spec fn wrap_point(arena: Arena, x: int, y: int) -> Vec2 {
    Vec2 {
        x: wrap_axis(x, arena.left as int, arena.right as int) as i64,
        y: wrap_axis(y, arena.bottom as int, arena.top as int) as i64,
    }
}

/// Wraps a position into the arena.
pub fn wrap_position(arena: &Arena, p: Vec2) -> (r: Vec2)
    requires
        arena.wf(),
    ensures
        r == wrap_point(*arena, p.x as int, p.y as int),
        arena.contains(r),
        arena.contains(p) ==> r == p,
{
    Vec2 {
        x: wrap_coordinate(p.x as i128, arena.left, arena.right),
        y: wrap_coordinate(p.y as i128, arena.bottom, arena.top),
    }
}

/// `c * max / len`, rounded towards zero.
pub open spec fn scale_toward_zero(c: int, max: int, len: int) -> int {
    if c >= 0 {
        (c * max) / len
    } else {
        -((-c * max) / len)
    }
}

/// The vector `(x, y)` with its length clamped to `[0, max]`: unchanged when
/// its length is at most `max`, and otherwise each coordinate scaled by
/// `max / l` towards zero, where `l` is the ceiling of its length.
pub open spec fn clamp_length_of(x: int, y: int, max: int) -> (int, int) {
    if x * x + y * y <= max * max {
        (x, y)
    } else {
        let len = ceil_sqrt_of(x * x + y * y);
        (scale_toward_zero(x, max, len), scale_toward_zero(y, max, len))
    }
}

/// Scaling by `max / len` with `max <= len` does not grow a coordinate, and
/// the scaled square times `len^2` stays below the square of `c * max`.
proof fn lemma_scale_toward_zero(c: int, max: int, len: int)
    requires
        0 <= max <= len,
        len > 0,
    ensures
        ({
            let q = scale_toward_zero(c, max, len);
            &&& q * q * (len * len) <= c * c * (max * max)
            &&& (c >= 0 ==> 0 <= q <= c)
            &&& (c < 0 ==> c <= q <= 0)
        }),
{
    let a = if c >= 0 { c } else { -c };
    let p = (a * max) / len;
    assert(0 <= a * max <= a * len) by (nonlinear_arith)
        requires
            a >= 0,
            0 <= max <= len,
    ;
    vstd::arithmetic::div_mod::lemma_fundamental_div_mod(a * max, len);
    let r = (a * max) % len;
    assert(0 <= p <= a && p * len <= a * max) by (nonlinear_arith)
        requires
            a * max == len * p + r,
            0 <= r < len,
            0 <= a * max <= a * len,
            len > 0,
    ;
    assert(p * p * (len * len) <= a * a * (max * max)) by (nonlinear_arith)
        requires
            0 <= p * len <= a * max,
    ;
    assert(c * c == a * a) by (nonlinear_arith)
        requires
            a == c || a == -c,
    ;
    let q = scale_toward_zero(c, max, len);
    if c < 0 {
        assert(q == -p);
    } else {
        assert(q == p);
    }
    assert(q * q == p * p) by (nonlinear_arith)
        requires
            q == p || q == -p,
    ;
}

/// Shrinking both coordinates as above brings the squared length to at most
/// `max^2`.
proof fn lemma_clamped_length(x: int, y: int, max: int, len: int)
    requires
        0 <= max < len,
        x * x + y * y <= len * len,
        ({
            let qx = scale_toward_zero(x, max, len);
            let qy = scale_toward_zero(y, max, len);
            &&& qx * qx * (len * len) <= x * x * (max * max)
            &&& qy * qy * (len * len) <= y * y * (max * max)
        }),
    ensures
        ({
            let qx = scale_toward_zero(x, max, len);
            let qy = scale_toward_zero(y, max, len);
            qx * qx + qy * qy <= max * max
        }),
{
    let qx = scale_toward_zero(x, max, len);
    let qy = scale_toward_zero(y, max, len);
    assert(qx * qx + qy * qy <= max * max) by (nonlinear_arith)
        requires
            len > 0,
            max >= 0,
            x * x + y * y <= len * len,
            qx * qx * (len * len) <= x * x * (max * max),
            qy * qy * (len * len) <= y * y * (max * max),
    ;
}

/// A square bounded by `max^2` bounds the value by `max`.
pub proof fn lemma_square_bound(v: int, max: int)
    requires
        max >= 0,
        v * v <= max * max,
    ensures
        abs_within(v, max),
{
    if v > max {
        assert(v * v > max * max) by (nonlinear_arith)
            requires
                v > max >= 0,
        ;
    } else if v < -max {
        assert(v * v > max * max) by (nonlinear_arith)
            requires
                -v > max >= 0,
        ;
    }
}

/// `c * max / len` rounded towards zero, computed on magnitudes.
fn scale_coordinate(c: i128, max: i128, len: i128) -> (q: i128)
    requires
        -2000000000000 <= c <= 2000000000000,
        0 <= max <= len,
        max <= MAGNITUDE_LIMIT,
        len > 0,
    ensures
        q == scale_toward_zero(c as int, max as int, len as int),
{
    let a: i128 = if c >= 0 {
        c
    } else {
        -c
    };
    assert(0 <= a * max <= a * len) by (nonlinear_arith)
        requires
            0 <= a,
            0 <= max <= len,
    ;
    assert(a * max <= 2000000000000000000000000) by (nonlinear_arith)
        requires
            0 <= a <= 2000000000000,
            0 <= max <= 1000000000000,
    ;
    let p = a * max / len;
    if c >= 0 {
        p
    } else {
        -p
    }
}

/// Clamps the length of `v` to at most `max`, keeping its direction up to
/// rounding towards zero.
pub fn clamp_length(v: Vec2, max: i64) -> (r: Vec2)
    requires
        v.within(2 * MAGNITUDE_LIMIT),
        0 <= max <= MAGNITUDE_LIMIT,
    ensures
        (r.x as int, r.y as int) == clamp_length_of(v.x as int, v.y as int, max as int),
        r.length_sq() <= max * max,
        r.within(max as int),
        v.length_sq() <= max * max ==> r == v,
{
    let x = v.x as i128;
    let y = v.y as i128;
    let m = max as i128;
    assert(0 <= x * x <= 4000000000000000000000000 && 0 <= y * y <= 4000000000000000000000000
        && 0 <= m * m <= 1000000000000000000000000) by (nonlinear_arith)
        requires
            -2000000000000 <= x <= 2000000000000,
            -2000000000000 <= y <= 2000000000000,
            0 <= m <= 1000000000000,
    ;
    assert(-2000000000000000000000000 <= x * m <= 2000000000000000000000000
        && -2000000000000000000000000 <= y * m <= 2000000000000000000000000) by (nonlinear_arith)
        requires
            -2000000000000 <= x <= 2000000000000,
            -2000000000000 <= y <= 2000000000000,
            0 <= m <= 1000000000000,
    ;
    let n = x * x + y * y;
    if n <= m * m {
        proof {
            lemma_square_bound(x as int, m as int);
            lemma_square_bound(y as int, m as int);
        }
        return v;
    }
    let len = ceil_sqrt(n as u128) as i128;
    assert(len > max) by (nonlinear_arith)
        requires
            len >= 0,
            len * len >= n,
            n > max * max,
            max >= 0,
    ;
    proof {
        lemma_scale_toward_zero(x as int, m as int, len as int);
        lemma_scale_toward_zero(y as int, m as int, len as int);
        lemma_clamped_length(x as int, y as int, m as int, len as int);
    }
    let qx = scale_coordinate(x, m, len);
    let qy = scale_coordinate(y, m, len);
    assert(qx * qx >= 0 && qy * qy >= 0) by (nonlinear_arith);
    proof {
        lemma_square_bound(qx as int, m as int);
        lemma_square_bound(qy as int, m as int);
    }
    Vec2 { x: qx as i64, y: qy as i64 }
}

} // verus!
