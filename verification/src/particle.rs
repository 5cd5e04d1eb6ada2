//! A particle: a position and a velocity, with collision detection, elastic
//! collision resolution, gravity, and forward-Euler integration.

use vstd::prelude::*;
use crate::math::{div_trunc, clamp_i, div_trunc_i64, div_trunc_i128, clamp_i128_to_i64};
use crate::point::{Point, COORD_LIMIT, bounded, dist_sq};

verus! {

/// One physics step advances time by `1 / DT_DIVISOR` of a time unit
/// (`dt = 0.01`), independent of wall-clock frame pacing.
pub const DT_DIVISOR: i64 = 100;

/// A particle of the simulation.
#[derive(Clone, Copy, Debug, PartialEq, Eq, Structural)]
pub struct Particle {
    /// Location.
    pub l: Point,
    /// Velocity.
    pub v: Point,
}

impl Default for Particle {
    /// A particle at rest at the origin.
    fn default() -> (r: Particle)
        ensures
            r.l.x == 0 && r.l.y == 0 && r.v.x == 0 && r.v.y == 0,
    {
        Particle { l: Point::origin(), v: Point::origin() }
    }
}

/// Velocity components within the global bound: every operation of the
/// simulation keeps this.
pub open spec fn vel_ok(p: Particle) -> bool {
    bounded(p.v, COORD_LIMIT as int)
}

/// Position components within the global bound: every state the simulation
/// leaves observable keeps this.
pub open spec fn pos_ok(p: Particle) -> bool {
    bounded(p.l, COORD_LIMIT as int)
}

/// Position components within twice the global bound: positions may leave
/// the display area transiently (between integration and containment) but
/// never stray beyond this.
pub open spec fn pos_loose(p: Particle) -> bool {
    bounded(p.l, 2 * COORD_LIMIT as int)
}

/// The two particles overlap: their squared distance is at most `(2 * radius)^2`.
pub open spec fn colliding_at(a: Particle, b: Particle, radius: int) -> bool {
    dist_sq(a.l, b.l) <= (2 * radius) * (2 * radius)
}

/// The impulse the elastic collision exchanges, projected on one axis:
/// `dc * (dv . dc) / |dc|^2` rounded toward zero, where `dc` and `dv` are the
/// position and velocity differences and `dcomp` is `dc`'s component on the axis.
pub open spec fn impulse_comp(dcomp: int, dot: int, dsq: int) -> int {
    div_trunc(dcomp * dot, dsq)
}

/// The pair of particles after elastic collision resolution, exactly.
///
/// Both particles keep their positions. With `dv = a.v - b.v` and
/// `dc = a.l - b.l`, the impulse `i = dc * (dv . dc) / |dc|^2` (componentwise,
/// rounded toward zero) moves to `a.v - i` and `b.v + i`, each component then
/// clamped into `[-COORD_LIMIT, COORD_LIMIT]`. Two particles at the exact same
/// position are left unchanged (the degenerate zero-distance case: the
/// impulse's divisor would be zero, so resolution is skipped).
pub open spec fn collide_spec(a: Particle, b: Particle) -> (Particle, Particle) {
    let dcx = a.l.x - b.l.x;
    let dcy = a.l.y - b.l.y;
    let dsq = dcx * dcx + dcy * dcy;
    if dsq == 0 {
        (a, b)
    } else {
        let dot = (a.v.x - b.v.x) * dcx + (a.v.y - b.v.y) * dcy;
        let ix = impulse_comp(dcx, dot, dsq);
        let iy = impulse_comp(dcy, dot, dsq);
        (
            Particle {
                l: a.l,
                v: Point {
                    x: clamp_i(a.v.x - ix, COORD_LIMIT as int) as i64,
                    y: clamp_i(a.v.y - iy, COORD_LIMIT as int) as i64,
                },
            },
            Particle {
                l: b.l,
                v: Point {
                    x: clamp_i(b.v.x + ix, COORD_LIMIT as int) as i64,
                    y: clamp_i(b.v.y + iy, COORD_LIMIT as int) as i64,
                },
            },
        )
    }
}

/// No velocity clamp engages when `a` and `b` collide: the exact impulse
/// leaves every resulting component within the global bound.
pub open spec fn collide_unclamped(a: Particle, b: Particle) -> bool {
    let dcx = a.l.x - b.l.x;
    let dcy = a.l.y - b.l.y;
    let dsq = dcx * dcx + dcy * dcy;
    let dot = (a.v.x - b.v.x) * dcx + (a.v.y - b.v.y) * dcy;
    dsq != 0 ==> {
        &&& -COORD_LIMIT <= a.v.x - impulse_comp(dcx, dot, dsq) <= COORD_LIMIT
        &&& -COORD_LIMIT <= a.v.y - impulse_comp(dcy, dot, dsq) <= COORD_LIMIT
        &&& -COORD_LIMIT <= b.v.x + impulse_comp(dcx, dot, dsq) <= COORD_LIMIT
        &&& -COORD_LIMIT <= b.v.y + impulse_comp(dcy, dot, dsq) <= COORD_LIMIT
    }
}

/// Law: elastic collision resolution conserves total momentum and moves no
/// particle, whenever resolution is exact (no velocity component reaches the
/// global clamp bound; particles at the exact same position exchange nothing).
pub proof fn lemma_collide_momentum(a: Particle, b: Particle)
    requires
        vel_ok(a),
        vel_ok(b),
        pos_loose(a),
        pos_loose(b),
        collide_unclamped(a, b),
    ensures
        collide_spec(a, b).0.v.x + collide_spec(a, b).1.v.x == a.v.x + b.v.x,
        collide_spec(a, b).0.v.y + collide_spec(a, b).1.v.y == a.v.y + b.v.y,
        collide_spec(a, b).0.l == a.l,
        collide_spec(a, b).1.l == b.l,
{
}

/// Law: two particles exactly two radii apart are colliding, and any pair
/// farther apart is not.
pub proof fn lemma_colliding_boundary(a: Particle, b: Particle, radius: int)
    requires
        radius >= 0,
    ensures
        dist_sq(a.l, b.l) == (2 * radius) * (2 * radius) ==> colliding_at(a, b, radius),
        dist_sq(a.l, b.l) > (2 * radius) * (2 * radius) ==> !colliding_at(a, b, radius),
{
}

impl Particle {
    /// A particle from a position `(x, y)` and a velocity `(dx, dy)`.
    pub fn new(x: i64, y: i64, dx: i64, dy: i64) -> (r: Particle)
        ensures
            r.l.x == x && r.l.y == y && r.v.x == dx && r.v.y == dy,
    {
        Particle { l: Point { x, y }, v: Point { x: dx, y: dy } }
    }

    /// The two particles' circles of radius `radius` overlap (touching counts).
    pub fn colliding(&self, rhs: &Particle, radius: i64) -> (r: bool)
        requires
            pos_loose(*self),
            pos_loose(*rhs),
            0 <= radius <= COORD_LIMIT,
        ensures
            r == colliding_at(*self, *rhs, radius as int),
    {
        let rr: i128 = 2 * radius as i128;
        proof {
            assert(rr * rr <= i128::MAX) by (nonlinear_arith)
                requires
                    0 <= rr <= 2 * COORD_LIMIT,
                    COORD_LIMIT == 1_099_511_627_776,
            ;
        }
        self.l.distance_sq(&rhs.l) <= rr * rr
    }

    /// Resolve the elastic collision of the two particles, returning their
    /// new states (positions unchanged, velocities exchanged along the line
    /// of centers). Callers check `colliding` first; the formula itself is
    /// total. Particles at the exact same position come back unchanged.
    pub fn collide(self, rhs: Particle) -> (r: (Particle, Particle))
        requires
            pos_loose(self),
            pos_loose(rhs),
            vel_ok(self),
            vel_ok(rhs),
        ensures
            r == collide_spec(self, rhs),
    {
        let dcx: i128 = self.l.x as i128 - rhs.l.x as i128;
        let dcy: i128 = self.l.y as i128 - rhs.l.y as i128;
        proof {
            assert(dcx * dcx + dcy * dcy <= i128::MAX && dcx * dcx >= 0 && dcy * dcy >= 0)
                by (nonlinear_arith)
                requires
                    -4 * COORD_LIMIT <= dcx <= 4 * COORD_LIMIT,
                    -4 * COORD_LIMIT <= dcy <= 4 * COORD_LIMIT,
                    COORD_LIMIT == 1_099_511_627_776,
            ;
        }
        let dsq: i128 = dcx * dcx + dcy * dcy;
        if dsq == 0 {
            (self, rhs)
        } else {
            let dvx: i128 = self.v.x as i128 - rhs.v.x as i128;
            let dvy: i128 = self.v.y as i128 - rhs.v.y as i128;
            proof {
                assert(-0x800000000000000000000 <= dvx * dcx <= 0x800000000000000000000
                    && -0x800000000000000000000 <= dvy * dcy <= 0x800000000000000000000)
                    by (nonlinear_arith)
                    requires
                        -4 * COORD_LIMIT <= dcx <= 4 * COORD_LIMIT,
                        -4 * COORD_LIMIT <= dcy <= 4 * COORD_LIMIT,
                        -2 * COORD_LIMIT <= dvx <= 2 * COORD_LIMIT,
                        -2 * COORD_LIMIT <= dvy <= 2 * COORD_LIMIT,
                        COORD_LIMIT == 1_099_511_627_776,
                ;
            }
            let dot: i128 = dvx * dcx + dvy * dcy;
            proof {
                assert(-0x40000000000000000000000000000000 <= dcx * dot
                    <= 0x40000000000000000000000000000000 && -0x40000000000000000000000000000000
                    <= dcy * dot <= 0x40000000000000000000000000000000) by (nonlinear_arith)
                    requires
                        -4 * COORD_LIMIT <= dcx <= 4 * COORD_LIMIT,
                        -4 * COORD_LIMIT <= dcy <= 4 * COORD_LIMIT,
                        -0x1000000000000000000000 <= dot <= 0x1000000000000000000000,
                        COORD_LIMIT == 1_099_511_627_776,
                ;
            }
            let ix: i128 = div_trunc_i128(dcx * dot, dsq);
            let iy: i128 = div_trunc_i128(dcy * dot, dsq);
            let av = Point {
                x: clamp_i128_to_i64(self.v.x as i128 - ix, COORD_LIMIT),
                y: clamp_i128_to_i64(self.v.y as i128 - iy, COORD_LIMIT),
            };
            let bv = Point {
                x: clamp_i128_to_i64(rhs.v.x as i128 + ix, COORD_LIMIT),
                y: clamp_i128_to_i64(rhs.v.y as i128 + iy, COORD_LIMIT),
            };
            (Particle { l: self.l, v: av }, Particle { l: rhs.l, v: bv })
        }
    }

    /// Accelerate downward: `v.y += g * dt`, the increment rounded toward
    /// zero and the result clamped into the global velocity bound.
    pub fn gravity(&mut self, g: i64)
        requires
            vel_ok(*old(self)),
            0 <= g <= COORD_LIMIT,
        ensures
            final(self).v.y == clamp_i(
                old(self).v.y + div_trunc(g as int, DT_DIVISOR as int),
                COORD_LIMIT as int,
            ),
            final(self).v.x == old(self).v.x,
            final(self).l == old(self).l,
    {
        let dv: i64 = div_trunc_i64(g, DT_DIVISOR);
        let ny: i64 = clamp_i128_to_i64(self.v.y as i128 + dv as i128, COORD_LIMIT);
        self.v.y = ny;
    }

    /// One forward-Euler step: `position += velocity * dt`, each component's
    /// increment rounded toward zero.
    pub fn tick(&mut self)
        requires
            pos_ok(*old(self)),
            vel_ok(*old(self)),
        ensures
            final(self).l.x == old(self).l.x + div_trunc(old(self).v.x as int, DT_DIVISOR as int),
            final(self).l.y == old(self).l.y + div_trunc(old(self).v.y as int, DT_DIVISOR as int),
            final(self).v == old(self).v,
    {
        proof {
            crate::math::lemma_div_trunc_le(self.v.x as int, DT_DIVISOR as int);
            crate::math::lemma_div_trunc_le(self.v.y as int, DT_DIVISOR as int);
        }
        let dx: i64 = div_trunc_i64(self.v.x, DT_DIVISOR);
        let dy: i64 = div_trunc_i64(self.v.y, DT_DIVISOR);
        self.l.x = self.l.x + dx;
        self.l.y = self.l.y + dy;
    }
}

} // verus!
