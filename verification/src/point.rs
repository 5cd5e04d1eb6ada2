//! A fixed-point 2D point/vector, used for both positions and velocities.

use vstd::prelude::*;
use crate::math::{div_trunc, div_trunc_i128};

verus! {

/// Fixed-point units per sub-cell: a coordinate of `SCALE` is one sub-cell.
pub const SCALE: i64 = 1_000_000;

/// Every coordinate and velocity component the simulation keeps stays within
/// this bound (2^40 fixed-point units, about a million sub-cells).
pub const COORD_LIMIT: i64 = 1_099_511_627_776;

/// A 2D point or vector with fixed-point components.
#[derive(Clone, Copy, Debug, PartialEq, Eq, Structural)]
pub struct Point {
    pub x: i64,
    pub y: i64,
}

/// Both components of `p` lie in `[-b, b]`.
pub open spec fn bounded(p: Point, b: int) -> bool {
    -b <= p.x <= b && -b <= p.y <= b
}

/// The squared Euclidean distance between `a` and `b`, exactly.
pub open spec fn dist_sq(a: Point, b: Point) -> int {
    (a.x - b.x) * (a.x - b.x) + (a.y - b.y) * (a.y - b.y)
}

/// The inner product of `a` and `b`, exactly.
pub open spec fn inner_prod(a: Point, b: Point) -> int {
    a.x * b.x + a.y * b.y
}

impl Point {
    /// The zero point.
    pub fn origin() -> (r: Point)
        ensures
            r.x == 0 && r.y == 0,
    {
        Point { x: 0, y: 0 }
    }

    /// A point from its two components.
    pub fn new(x: i64, y: i64) -> (r: Point)
        ensures
            r.x == x && r.y == y,
    {
        Point { x, y }
    }

    /// Return the distance between the two points, squared.
    pub fn distance_sq(&self, rhs: &Point) -> (r: i128)
        requires
            bounded(*self, 0x2000_0000_0000_0000),
            bounded(*rhs, 0x2000_0000_0000_0000),
        ensures
            r == dist_sq(*self, *rhs),
    {
        let a: i128 = self.x as i128 - rhs.x as i128;
        let b: i128 = self.y as i128 - rhs.y as i128;
        proof {
            assert(a * a + b * b <= i128::MAX && a * a >= 0 && b * b >= 0) by (nonlinear_arith)
                requires
                    -0x4000_0000_0000_0000 <= a <= 0x4000_0000_0000_0000,
                    -0x4000_0000_0000_0000 <= b <= 0x4000_0000_0000_0000,
            ;
        }
        (a * a) + (b * b)
    }

    /// Compute the inner product.
    pub fn inner(self, rhs: Point) -> (r: i128)
        requires
            bounded(self, 0x2000_0000_0000_0000),
            bounded(rhs, 0x2000_0000_0000_0000),
        ensures
            r == inner_prod(self, rhs),
    {
        proof {
            assert(-0x4000000000000000000000000000000 <= self.x * rhs.x
                <= 0x4000000000000000000000000000000 && -0x4000000000000000000000000000000
                <= self.y * rhs.y <= 0x4000000000000000000000000000000) by (nonlinear_arith)
                requires
                    bounded(self, 0x2000_0000_0000_0000),
                    bounded(rhs, 0x2000_0000_0000_0000),
            ;
        }
        (self.x as i128 * rhs.x as i128) + (self.y as i128 * rhs.y as i128)
    }

    /// The Euclidean norm, rounded down to an integer: the exact floor of
    /// the square root of `x^2 + y^2`. The norm of the zero point is 0 exactly.
    pub fn magnitude(self) -> (r: i64)
        requires
            bounded(self, 0x2000_0000_0000_0000),
        ensures
            r >= 0,
            r * r <= dist_sq(self, Point { x: 0, y: 0 }),
            dist_sq(self, Point { x: 0, y: 0 }) < (r + 1) * (r + 1),
    {
        proof {
            let o = Point { x: 0, y: 0 };
            assert(0 <= dist_sq(self, o) < 0x4000_0000_0000_0000_0000_0000_0000_0000)
                by (nonlinear_arith)
                requires
                    bounded(self, 0x2000_0000_0000_0000),
                    o == (Point { x: 0, y: 0 }),
            ;
        }
        let n: i128 = self.distance_sq(&Point { x: 0, y: 0 });
        let r: u64 = isqrt(n as u128);
        proof {
            assert(r < 0x8000_0000_0000_0000) by (nonlinear_arith)
                requires
                    r * r <= n as int,
                    n < 0x4000_0000_0000_0000_0000_0000_0000_0000,
                    r >= 0,
            ;
        }
        r as i64
    }

    /// Componentwise difference `self - rhs`.
    pub fn sub(self, rhs: Point) -> (r: Point)
        requires
            i64::MIN <= self.x - rhs.x <= i64::MAX,
            i64::MIN <= self.y - rhs.y <= i64::MAX,
        ensures
            r.x == self.x - rhs.x,
            r.y == self.y - rhs.y,
    {
        Point { x: self.x - rhs.x, y: self.y - rhs.y }
    }

    /// Componentwise sum, in place: `self += rhs`.
    pub fn add_in_place(&mut self, rhs: Point)
        requires
            i64::MIN <= old(self).x + rhs.x <= i64::MAX,
            i64::MIN <= old(self).y + rhs.y <= i64::MAX,
        ensures
            final(self).x == old(self).x + rhs.x,
            final(self).y == old(self).y + rhs.y,
    {
        self.x = self.x + rhs.x;
        self.y = self.y + rhs.y;
    }

    /// Scale by the fixed-point factor `k` (so `k == SCALE` means times one),
    /// rounding each component toward zero.
    pub fn scale(self, k: i64) -> (r: Point)
        requires
            bounded(self, COORD_LIMIT as int),
            -COORD_LIMIT <= k <= COORD_LIMIT,
            -(i64::MAX as int) <= div_trunc(self.x * k, SCALE as int) <= i64::MAX,
            -(i64::MAX as int) <= div_trunc(self.y * k, SCALE as int) <= i64::MAX,
        ensures
            r.x == div_trunc(self.x * k, SCALE as int),
            r.y == div_trunc(self.y * k, SCALE as int),
    {
        proof {
            assert(-0x4000_0000_0000_0000_0000_0000 <= self.x * k <= 0x4000_0000_0000_0000_0000_0000
                && -0x4000_0000_0000_0000_0000_0000 <= self.y * k
                    <= 0x4000_0000_0000_0000_0000_0000) by (nonlinear_arith)
                requires
                    bounded(self, COORD_LIMIT as int),
                    -COORD_LIMIT <= k <= COORD_LIMIT,
                    COORD_LIMIT == 1_099_511_627_776,
            ;
        }
        let px: i128 = div_trunc_i128(self.x as i128 * k as i128, SCALE as i128);
        let py: i128 = div_trunc_i128(self.y as i128 * k as i128, SCALE as i128);
        Point { x: px as i64, y: py as i64 }
    }

    /// Scale in place by the fixed-point factor `k`.
    pub fn scale_in_place(&mut self, k: i64)
        requires
            bounded(*old(self), COORD_LIMIT as int),
            -COORD_LIMIT <= k <= COORD_LIMIT,
            -(i64::MAX as int) <= div_trunc(old(self).x * k, SCALE as int) <= i64::MAX,
            -(i64::MAX as int) <= div_trunc(old(self).y * k, SCALE as int) <= i64::MAX,
        ensures
            final(self).x == div_trunc(old(self).x * k, SCALE as int),
            final(self).y == div_trunc(old(self).y * k, SCALE as int),
    {
        *self = self.scale(k);
    }
}

/// The exact floor of the square root of `n`, by binary search.
fn isqrt(n: u128) -> (r: u64)
    requires
        n < 0x4000_0000_0000_0000_0000_0000_0000_0000,
    ensures
        r * r <= n < (r + 1) * (r + 1),
{
    let mut lo: u64 = 0;
    let mut hi: u64 = 0x8000_0000_0000_0000;
    proof {
        assert((hi as int) * (hi as int) > n);
    }
    while lo + 1 < hi
        invariant
            lo < hi <= 0x8000_0000_0000_0000,
            lo * lo <= n,
            n < hi * hi,
        decreases hi - lo,
    {
        let mid: u64 = lo + (hi - lo) / 2;
        proof {
            assert(mid * mid < 0x1_0000_0000_0000_0000_0000_0000_0000_0000) by (nonlinear_arith)
                requires
                    mid <= 0x8000_0000_0000_0000,
            ;
        }
        if (mid as u128) * (mid as u128) <= n {
            lo = mid;
        } else {
            hi = mid;
        }
    }
    lo
}

} // verus!
