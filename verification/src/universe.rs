//! The simulation: an ordered collection of particles and the current
//! display-surface dimensions in sub-cell units. Drives per-step integration,
//! wall containment and all-pairs collision resolution, and reacts to
//! dimension changes by reflecting out-of-bounds particles back inside.

use vstd::prelude::*;
use crate::math::{div_trunc, clamp_i, div_trunc_i64, lemma_div_trunc_le};
use crate::point::{Point, SCALE, COORD_LIMIT};
use crate::particle::{
    Particle, DT_DIVISOR, vel_ok, pos_ok, pos_loose, colliding_at, collide_spec,
};
use crate::screen::{Screen, grid_of, text_matches};

verus! {

/// Wall damping is given in thousandths: `DAMP_UNIT` means no energy loss.
pub const DAMP_UNIT: i64 = 1000;

/// The immutable configuration of a simulation: the global constants of the
/// physics, overridable at construction.
#[derive(Clone, Copy, Debug, PartialEq, Eq, Structural)]
pub struct Config {
    /// Apply constant downward acceleration each step (off by default).
    pub gravity_enabled: bool,
    /// Downward acceleration, in fixed-point units per time unit squared.
    pub gravity: i64,
    /// Particle radius for the circle-circle overlap test, fixed-point.
    pub radius: i64,
    /// Wall damping in thousandths of the reflected velocity (1000 = elastic).
    pub damp_milli: i64,
    /// Random velocities are sampled in `[-base_energy / 2, base_energy / 2)`.
    pub base_energy: i64,
}

/// The configuration's fields lie in the ranges the physics is verified for.
pub open spec fn cfg_wf(c: Config) -> bool {
    &&& 0 <= c.gravity <= COORD_LIMIT
    &&& 0 <= c.radius <= COORD_LIMIT
    &&& 0 <= c.damp_milli <= DAMP_UNIT
    &&& 0 <= c.base_energy <= 2 * COORD_LIMIT as int
}

/// The stock configuration: gravity off, unit radius, elastic walls, base
/// energy of 100 sub-cells per time unit.
pub open spec fn default_config() -> Config {
    Config {
        gravity_enabled: false,
        gravity: SCALE,
        radius: SCALE,
        damp_milli: DAMP_UNIT,
        base_energy: 100_000_000,
    }
}

impl Default for Config {
    /// The stock configuration (see `default_config`).
    fn default() -> (r: Config)
        ensures
            r == default_config(),
            cfg_wf(r),
    {
        Config {
            gravity_enabled: false,
            gravity: SCALE,
            radius: SCALE,
            damp_milli: DAMP_UNIT,
            base_energy: 100_000_000,
        }
    }
}

/// One coordinate reflected back inside `[0, bound]`, with its velocity
/// component: a coordinate that crossed 0 comes back mirrored (`-x`), one that
/// crossed `bound` comes back mirrored off that wall (`2 * bound - x`), and in
/// both cases the velocity is reversed and damped. A reflection that still
/// lands outside (the particle overshot by more than the whole range) is
/// clamped to the nearer wall, so containment always holds afterwards.
pub open spec fn wall_axis(x: int, v: int, bound: int, damp: int) -> (int, int) {
    if x < 0 {
        (clamp_pos(-x, bound), -div_trunc(v * damp, DAMP_UNIT as int))
    } else if x > bound {
        (clamp_pos(2 * bound - x, bound), -div_trunc(v * damp, DAMP_UNIT as int))
    } else {
        (x, v)
    }
}

/// `z` clamped into `[0, bound]`.
pub open spec fn clamp_pos(z: int, bound: int) -> int {
    if z < 0 {
        0
    } else if z > bound {
        bound
    } else {
        z
    }
}

/// A particle after wall containment against a `w` by `h` sub-cell area.
pub open spec fn wall_one(p: Particle, w: int, h: int, damp: int) -> Particle {
    let (nx, nvx) = wall_axis(p.l.x as int, p.v.x as int, w * SCALE, damp);
    let (ny, nvy) = wall_axis(p.l.y as int, p.v.y as int, h * SCALE, damp);
    Particle {
        l: Point { x: nx as i64, y: ny as i64 },
        v: Point { x: nvx as i64, y: nvy as i64 },
    }
}

/// Every particle after wall containment, in order.
pub open spec fn walls_all(s: Seq<Particle>, w: int, h: int, damp: int) -> Seq<Particle> {
    Seq::new(s.len(), |i: int| wall_one(s[i], w, h, damp))
}

/// A particle after one forward-Euler step: the position advances by
/// `velocity * dt` (componentwise, rounded toward zero), then gravity, when
/// enabled, adds `gravity * dt` to the downward velocity.
pub open spec fn integrate_one(p: Particle, c: Config) -> Particle {
    let l = Point {
        x: (p.l.x + div_trunc(p.v.x as int, DT_DIVISOR as int)) as i64,
        y: (p.l.y + div_trunc(p.v.y as int, DT_DIVISOR as int)) as i64,
    };
    let v = if c.gravity_enabled {
        Point {
            x: p.v.x,
            y: clamp_i(
                p.v.y + div_trunc(c.gravity as int, DT_DIVISOR as int),
                COORD_LIMIT as int,
            ) as i64,
        }
    } else {
        p.v
    };
    Particle { l, v }
}

/// Every particle after one forward-Euler step, in order.
pub open spec fn integrate_all(s: Seq<Particle>, c: Config) -> Seq<Particle> {
    Seq::new(s.len(), |i: int| integrate_one(s[i], c))
}

/// The collection after the unordered pair `(i, j)` is checked and, when the
/// two particles overlap, resolved in place.
pub open spec fn resolve_pair(s: Seq<Particle>, i: int, j: int, radius: int) -> Seq<Particle> {
    if colliding_at(s[i], s[j], radius) {
        let r = collide_spec(s[i], s[j]);
        s.update(i, r.0).update(j, r.1)
    } else {
        s
    }
}

/// The collection after the pairs `(i, j), (i, j + 1), ..., (i, n - 1)` are
/// checked and resolved in scan order.
pub open spec fn resolve_row(s: Seq<Particle>, n: int, i: int, j: int, radius: int) -> Seq<
    Particle,
>
    decreases n - j,
{
    if j >= n {
        s
    } else {
        resolve_row(resolve_pair(s, i, j, radius), n, i, j + 1, radius)
    }
}

/// The collection after every unordered pair from row `i` on is checked and
/// resolved in scan order; `n` is the collection's length.
pub open spec fn resolve_from(s: Seq<Particle>, n: int, i: int, radius: int) -> Seq<Particle>
    decreases n - i,
{
    if i >= n {
        s
    } else {
        resolve_from(resolve_row(s, n, i, i + 1, radius), n, i + 1, radius)
    }
}

/// The collection after the brute-force all-pairs collision scan: each
/// unordered pair `(i, j)`, `i < j`, in scan order, resolved immediately, so
/// later pairs see earlier impulses.
pub open spec fn collide_all(s: Seq<Particle>, radius: int) -> Seq<Particle> {
    resolve_from(s, s.len() as int, 0, radius)
}

/// The collection after one whole physics step: integration, then wall
/// containment, then the collision scan.
pub open spec fn tick_spec(s: Seq<Particle>, w: int, h: int, c: Config) -> Seq<Particle> {
    collide_all(walls_all(integrate_all(s, c), w, h, c.damp_milli as int), c.radius as int)
}

/// The collection after `n` whole physics steps.
pub open spec fn tick_many_spec(s: Seq<Particle>, n: nat, w: int, h: int, c: Config) -> Seq<
    Particle,
>
    decreases n,
{
    if n == 0 {
        s
    } else {
        tick_many_spec(tick_spec(s, w, h, c), (n - 1) as nat, w, h, c)
    }
}

/// The particle's position lies inside the `w` by `h` sub-cell area.
pub open spec fn contained(p: Particle, w: int, h: int) -> bool {
    0 <= p.l.x <= w * SCALE && 0 <= p.l.y <= h * SCALE
}

/// The simulation.
pub struct Universe {
    /// The particles, in insertion order.
    pub particles: Vec<Particle>,
    /// Display width, in sub-cell units.
    pub width: u32,
    /// Display height, in sub-cell units.
    pub height: u32,
    /// The physics constants.
    pub config: Config,
}

impl Universe {
    /// The dimensions fit a character grid of at most `u16` cells per axis.
    pub open spec fn dims_ok(self) -> bool {
        self.width <= 2 * 0xFFFF && self.height <= 4 * 0xFFFF
    }

    /// Well-formed: dimensions and configuration in range, every particle's
    /// position and velocity within the global bounds.
    pub open spec fn wf(self) -> bool {
        &&& self.dims_ok()
        &&& cfg_wf(self.config)
        &&& forall|k: int|
            0 <= k < self.particles@.len() ==> pos_ok(#[trigger] self.particles@[k]) && vel_ok(
                self.particles@[k],
            )
    }

    /// Every particle lies inside the current display area.
    pub open spec fn all_contained(self) -> bool {
        forall|k: int|
            0 <= k < self.particles@.len() ==> contained(
                #[trigger] self.particles@[k],
                self.width as int,
                self.height as int,
            )
    }

    /// An empty simulation with the stock configuration and no display area.
    pub fn new() -> (r: Universe)
        ensures
            r.particles@.len() == 0,
            r.width == 0 && r.height == 0,
            r.config == default_config(),
            r.wf(),
            r.all_contained(),
    {
        Universe { particles: Vec::new(), width: 0, height: 0, config: Config::default() }
    }

    /// An empty simulation with the given configuration.
    pub fn new_with(c: Config) -> (r: Universe)
        requires
            cfg_wf(c),
        ensures
            r.particles@.len() == 0,
            r.width == 0 && r.height == 0,
            r.config == c,
            r.wf(),
            r.all_contained(),
    {
        Universe { particles: Vec::new(), width: 0, height: 0, config: c }
    }

    /// Append a particle.
    pub fn add(&mut self, p: Particle)
        requires
            old(self).wf(),
            pos_ok(p),
            vel_ok(p),
        ensures
            final(self).particles@ == old(self).particles@.push(p),
            final(self).width == old(self).width && final(self).height == old(self).height
                && final(self).config == old(self).config,
            final(self).wf(),
    {
        self.particles.push(p);
    }

    /// The display width in character cells (2 sub-cells per cell).
    pub fn term_width(&self) -> (r: usize)
        ensures
            r == self.width as int / 2,
    {
        (self.width / 2) as usize
    }

    /// The display height in character cells (4 sub-cells per cell).
    pub fn term_height(&self) -> (r: usize)
        ensures
            r == self.height as int / 4,
    {
        (self.height / 4) as usize
    }

    /// Reflect every particle that crossed a wall back inside the current
    /// display area (see `wall_one`). Afterwards every particle is contained.
    pub fn check_walls(&mut self)
        requires
            old(self).dims_ok(),
            cfg_wf(old(self).config),
            forall|k: int|
                0 <= k < old(self).particles@.len() ==> pos_loose(
                    #[trigger] old(self).particles@[k],
                ) && vel_ok(old(self).particles@[k]),
        ensures
            final(self).particles@ == walls_all(
                old(self).particles@,
                old(self).width as int,
                old(self).height as int,
                old(self).config.damp_milli as int,
            ),
            final(self).width == old(self).width && final(self).height == old(self).height
                && final(self).config == old(self).config,
            final(self).wf(),
            final(self).all_contained(),
    {
        let w: i64 = self.width as i64 * SCALE;
        let h: i64 = self.height as i64 * SCALE;
        let damp: i64 = self.config.damp_milli;
        let n: usize = self.particles.len();
        let ghost orig = self.particles@;
        let mut i: usize = 0;
        while i < n
            invariant
                n == self.particles@.len() == orig.len(),
                0 <= i <= n,
                w == self.width as int * SCALE,
                h == self.height as int * SCALE,
                damp == self.config.damp_milli,
                self.dims_ok(),
                cfg_wf(self.config),
                self.width == old(self).width && self.height == old(self).height && self.config
                    == old(self).config,
                forall|k: int| 0 <= k < n ==> pos_loose(#[trigger] orig[k]) && vel_ok(orig[k]),
                forall|k: int|
                    i <= k < n ==> #[trigger] self.particles@[k] == orig[k],
                forall|k: int|
                    0 <= k < i ==> #[trigger] self.particles@[k] == wall_one(
                        orig[k],
                        self.width as int,
                        self.height as int,
                        damp as int,
                    ),
                forall|k: int|
                    0 <= k < i ==> contained(
                        #[trigger] self.particles@[k],
                        self.width as int,
                        self.height as int,
                    ) && pos_ok(self.particles@[k]) && vel_ok(self.particles@[k]),
            decreases n - i,
        {
            let p: Particle = self.particles[i];
            let (nx, nvx) = wall_pass(p.l.x, p.v.x, w, damp);
            let (ny, nvy) = wall_pass(p.l.y, p.v.y, h, damp);
            let np = Particle { l: Point { x: nx, y: ny }, v: Point { x: nvx, y: nvy } };
            self.particles[i] = np;
            i = i + 1;
        }
        proof {
            assert(self.particles@ =~= walls_all(
                orig,
                self.width as int,
                self.height as int,
                damp as int,
            ));
        }
    }

    /// Check and resolve collisions between all unordered pairs, in scan
    /// order: a particle colliding with two others in the same step has its
    /// second collision computed from its already-updated velocity. Positions
    /// never change here.
    pub fn check_collisions(&mut self)
        requires
            cfg_wf(old(self).config),
            forall|k: int|
                0 <= k < old(self).particles@.len() ==> pos_loose(
                    #[trigger] old(self).particles@[k],
                ) && vel_ok(old(self).particles@[k]),
        ensures
            final(self).particles@ == collide_all(
                old(self).particles@,
                old(self).config.radius as int,
            ),
            final(self).width == old(self).width && final(self).height == old(self).height
                && final(self).config == old(self).config,
            final(self).particles@.len() == old(self).particles@.len(),
            forall|k: int|
                0 <= k < old(self).particles@.len()
                    ==> (#[trigger] final(self).particles@[k]).l == old(self).particles@[k].l,
            forall|k: int|
                0 <= k < final(self).particles@.len() ==> pos_loose(
                    #[trigger] final(self).particles@[k],
                ) && vel_ok(final(self).particles@[k]),
    {
        let n: usize = self.particles.len();
        let radius: i64 = self.config.radius;
        let ghost orig = self.particles@;
        let mut i: usize = 0;
        while i < n
            invariant
                n == self.particles@.len() == orig.len(),
                0 <= i <= n,
                radius == self.config.radius,
                cfg_wf(self.config),
                self.width == old(self).width && self.height == old(self).height && self.config
                    == old(self).config,
                collide_all(orig, radius as int) == resolve_from(
                    self.particles@,
                    n as int,
                    i as int,
                    radius as int,
                ),
                forall|k: int|
                    0 <= k < n ==> (#[trigger] self.particles@[k]).l == orig[k].l && pos_loose(
                        self.particles@[k],
                    ) && vel_ok(self.particles@[k]),
            decreases n - i,
        {
            let ghost row0 = self.particles@;
            let mut j: usize = i + 1;
            while j < n
                invariant
                    n == self.particles@.len() == orig.len() == row0.len(),
                    0 <= i < n,
                    i + 1 <= j <= n,
                    radius == self.config.radius,
                    cfg_wf(self.config),
                    self.width == old(self).width && self.height == old(self).height && self.config
                        == old(self).config,
                    resolve_row(row0, n as int, i as int, i + 1 as int, radius as int)
                        == resolve_row(
                        self.particles@,
                        n as int,
                        i as int,
                        j as int,
                        radius as int,
                    ),
                    forall|k: int|
                        0 <= k < n ==> (#[trigger] self.particles@[k]).l == row0[k].l && pos_loose(
                            self.particles@[k],
                        ) && vel_ok(self.particles@[k]),
                decreases n - j,
            {
                let a: Particle = self.particles[i];
                let b: Particle = self.particles[j];
                if a.colliding(&b, radius) {
                    let ghost pre = self.particles@;
                    let r = a.collide(b);
                    self.particles[i] = r.0;
                    self.particles[j] = r.1;
                    proof {
                        assert(self.particles@ == resolve_pair(
                            pre,
                            i as int,
                            j as int,
                            radius as int,
                        ));
                    }
                }
                j = j + 1;
            }
            i = i + 1;
        }
    }

    /// Advance every particle one forward-Euler step; with gravity enabled,
    /// also accelerate it downward.
    fn integrate_step(&mut self)
        requires
            cfg_wf(old(self).config),
            forall|k: int|
                0 <= k < old(self).particles@.len() ==> pos_ok(#[trigger] old(self).particles@[k])
                    && vel_ok(old(self).particles@[k]),
        ensures
            final(self).particles@ == integrate_all(old(self).particles@, old(self).config),
            final(self).width == old(self).width && final(self).height == old(self).height
                && final(self).config == old(self).config,
            forall|k: int|
                0 <= k < final(self).particles@.len() ==> pos_loose(
                    #[trigger] final(self).particles@[k],
                ) && vel_ok(final(self).particles@[k]),
    {
        let n: usize = self.particles.len();
        let ghost orig = self.particles@;
        let mut i: usize = 0;
        while i < n
            invariant
                n == self.particles@.len() == orig.len(),
                0 <= i <= n,
                cfg_wf(self.config),
                self.width == old(self).width && self.height == old(self).height && self.config
                    == old(self).config,
                forall|k: int| 0 <= k < n ==> pos_ok(#[trigger] orig[k]) && vel_ok(orig[k]),
                forall|k: int| i <= k < n ==> #[trigger] self.particles@[k] == orig[k],
                forall|k: int|
                    0 <= k < i ==> #[trigger] self.particles@[k] == integrate_one(
                        orig[k],
                        self.config,
                    ),
                forall|k: int|
                    0 <= k < i ==> pos_loose(#[trigger] self.particles@[k]) && vel_ok(
                        self.particles@[k],
                    ),
            decreases n - i,
        {
            let mut p: Particle = self.particles[i];
            proof {
                lemma_div_trunc_le(p.v.x as int, DT_DIVISOR as int);
                lemma_div_trunc_le(p.v.y as int, DT_DIVISOR as int);
            }
            p.tick();
            if self.config.gravity_enabled {
                p.gravity(self.config.gravity);
            }
            self.particles[i] = p;
            i = i + 1;
        }
    }

    /// Run one fixed physics step (`dt = 0.01`, independent of wall-clock
    /// frame timing): integrate every particle, then contain them at the
    /// walls, then resolve all colliding pairs. Afterwards every particle lies
    /// inside the display area.
    pub fn tick(&mut self)
        requires
            old(self).wf(),
        ensures
            final(self).particles@ == tick_spec(
                old(self).particles@,
                old(self).width as int,
                old(self).height as int,
                old(self).config,
            ),
            final(self).width == old(self).width && final(self).height == old(self).height
                && final(self).config == old(self).config,
            final(self).wf(),
            final(self).all_contained(),
    {
        self.integrate_step();
        self.check_walls();
        let ghost mid = self.particles@;
        let ghost w = self.width;
        let ghost h = self.height;
        self.check_collisions();
        proof {
            assert forall|k: int| 0 <= k < self.particles@.len() implies contained(
                #[trigger] self.particles@[k],
                w as int,
                h as int,
            ) && pos_ok(self.particles@[k]) by {
                assert(self.particles@[k].l == mid[k].l);
                assert(contained(mid[k], w as int, h as int));
            }
        }
    }

    /// Run `n` physics steps back to back.
    pub fn tick_many(&mut self, n: usize)
        requires
            old(self).wf(),
        ensures
            final(self).particles@ == tick_many_spec(
                old(self).particles@,
                n as nat,
                old(self).width as int,
                old(self).height as int,
                old(self).config,
            ),
            final(self).width == old(self).width && final(self).height == old(self).height
                && final(self).config == old(self).config,
            final(self).wf(),
    {
        let mut k: usize = 0;
        while k < n
            invariant
                0 <= k <= n,
                self.wf(),
                self.width == old(self).width && self.height == old(self).height && self.config
                    == old(self).config,
                tick_many_spec(
                    old(self).particles@,
                    n as nat,
                    old(self).width as int,
                    old(self).height as int,
                    old(self).config,
                ) == tick_many_spec(
                    self.particles@,
                    (n - k) as nat,
                    self.width as int,
                    self.height as int,
                    self.config,
                ),
            decreases n - k,
        {
            self.tick();
            k = k + 1;
        }
    }

    /// Set the stored width and reflect any particle the change left outside.
    fn set_width(&mut self, width: u32)
        requires
            old(self).wf(),
            width <= 2 * 0xFFFF,
        ensures
            final(self).width == width,
            final(self).height == old(self).height && final(self).config == old(self).config,
            final(self).particles@ == walls_all(
                old(self).particles@,
                width as int,
                old(self).height as int,
                old(self).config.damp_milli as int,
            ),
            final(self).wf(),
            final(self).all_contained(),
    {
        self.width = width;
        self.check_walls();
    }

    /// Set the stored height and reflect any particle the change left outside.
    fn set_height(&mut self, height: u32)
        requires
            old(self).wf(),
            height <= 4 * 0xFFFF,
        ensures
            final(self).height == height,
            final(self).width == old(self).width && final(self).config == old(self).config,
            final(self).particles@ == walls_all(
                old(self).particles@,
                old(self).width as int,
                height as int,
                old(self).config.damp_milli as int,
            ),
            final(self).wf(),
            final(self).all_contained(),
    {
        self.height = height;
        self.check_walls();
    }

    /// Adopt a display surface of `cols` by `rows` character cells: the stored
    /// dimensions become `2 * cols` by `4 * rows` sub-cells, and whenever
    /// either dimension actually changed, out-of-bounds particles are
    /// reflected back inside at once. With no size change, nothing is mutated.
    pub fn update_dims(&mut self, cols: u16, rows: u16)
        requires
            old(self).wf(),
        ensures
            final(self).width == 2 * cols as int,
            final(self).height == 4 * rows as int,
            final(self).config == old(self).config,
            final(self).particles@ == update_spec(
                old(self).particles@,
                old(self).width as int,
                old(self).height as int,
                2 * cols as int,
                4 * rows as int,
                old(self).config.damp_milli as int,
            ),
            final(self).wf(),
            old(self).width == 2 * cols as int && old(self).height == 4 * rows as int
                ==> final(self).particles@ == old(self).particles@,
            old(self).width != 2 * cols as int || old(self).height != 4 * rows as int
                ==> final(self).all_contained(),
            old(self).all_contained() ==> final(self).all_contained(),
    {
        let w: u32 = 2 * cols as u32;
        let h: u32 = 4 * rows as u32;
        if w != self.width {
            self.set_width(w);
        }
        if h != self.height {
            self.set_height(h);
        }
    }

    /// Append a particle with a position sampled uniformly within the current
    /// bounds and a velocity sampled uniformly within
    /// `[-base_energy / 2, base_energy / 2)` on each axis.
    pub fn add_rand(&mut self)
        requires
            old(self).wf(),
        ensures
            final(self).particles@ == old(self).particles@.push(final(self).particles@.last()),
            final(self).width == old(self).width && final(self).height == old(self).height
                && final(self).config == old(self).config,
            final(self).wf(),
            contained(
                final(self).particles@.last(),
                old(self).width as int,
                old(self).height as int,
            ),
            -(old(self).config.base_energy as int / 2) <= final(self).particles@.last().v.x
                <= old(self).config.base_energy as int / 2,
            -(old(self).config.base_energy as int / 2) <= final(self).particles@.last().v.y
                <= old(self).config.base_energy as int / 2,
    {
        let wmax: i64 = self.width as i64 * SCALE;
        let hmax: i64 = self.height as i64 * SCALE;
        let x: i64 = if wmax > 0 {
            rand_in_range(0, wmax)
        } else {
            0
        };
        let y: i64 = if hmax > 0 {
            rand_in_range(0, hmax)
        } else {
            0
        };
        let half: i64 = ((self.config.base_energy as u64) / 2) as i64;
        let dx: i64 = if half > 0 {
            rand_in_range(-half, half)
        } else {
            0
        };
        let dy: i64 = if half > 0 {
            rand_in_range(-half, half)
        } else {
            0
        };
        self.particles.push(Particle::new(x, y, dx, dy));
    }

    /// Rasterize the current particle set onto a dot-matrix grid of
    /// `width / 2` by `height / 4` character cells and serialize it (see
    /// `crate::screen`).
    pub fn render(&self) -> (r: String)
        requires
            self.wf(),
        ensures
            text_matches(
                r@,
                grid_of(self.particles@, self.width as int / 2, self.height as int / 4),
                self.width as int / 2,
                self.height as int / 4,
            ),
    {
        let cols: usize = self.term_width();
        let rows: usize = self.term_height();
        let mut screen = Screen::new(cols, rows);
        let n: usize = self.particles.len();
        let mut i: usize = 0;
        while i < n
            invariant
                n == self.particles@.len(),
                0 <= i <= n,
                screen.wf(),
                screen.cols == cols && screen.rows == rows,
                cols == self.width as int / 2 && rows == self.height as int / 4,
                screen.cells@ == grid_of(
                    self.particles@.take(i as int),
                    cols as int,
                    rows as int,
                ),
            decreases n - i,
        {
            let p: Particle = self.particles[i];
            screen.add(&p.l);
            proof {
                assert(self.particles@.take(i + 1).drop_last() =~= self.particles@.take(i as int));
                assert(self.particles@.take(i + 1).last() == self.particles@[i as int]);
            }
            i = i + 1;
        }
        proof {
            assert(self.particles@.take(n as int) =~= self.particles@);
        }
        screen.to_text()
    }

    /// One whole frame: adopt the display surface of `cols` by `rows`
    /// character cells, run one physics step, and return the rendered text
    /// block.
    pub fn frame(&mut self, cols: u16, rows: u16) -> (r: String)
        requires
            old(self).wf(),
        ensures
            final(self).width == 2 * cols as int,
            final(self).height == 4 * rows as int,
            final(self).config == old(self).config,
            final(self).particles@ == tick_spec(
                update_spec(
                    old(self).particles@,
                    old(self).width as int,
                    old(self).height as int,
                    2 * cols as int,
                    4 * rows as int,
                    old(self).config.damp_milli as int,
                ),
                2 * cols as int,
                4 * rows as int,
                old(self).config,
            ),
            final(self).wf(),
            final(self).all_contained(),
            text_matches(
                r@,
                grid_of(final(self).particles@, cols as int, rows as int),
                cols as int,
                rows as int,
            ),
    {
        self.update_dims(cols, rows);
        self.tick();
        self.render()
    }
}

/// The collection after a dimension update from `oldw` by `oldh` to `w` by
/// `h`: wall containment runs once per dimension that actually changed, first
/// against `w` by `oldh`, then against `w` by `h`.
pub open spec fn update_spec(
    s: Seq<Particle>,
    oldw: int,
    oldh: int,
    w: int,
    h: int,
    damp: int,
) -> Seq<Particle> {
    let s1 = if w != oldw {
        walls_all(s, w, oldh, damp)
    } else {
        s
    };
    if h != oldh {
        walls_all(s1, w, h, damp)
    } else {
        s1
    }
}

/// Relies on rand::random_range over an `i64` range: a sample uniform in the
/// half-open range `lo..hi`, which panics only when the range is empty.
#[verifier::external_body]
fn rand_in_range(lo: i64, hi: i64) -> (r: i64)
    requires
        lo < hi,
    ensures
        lo <= r < hi,
{
    rand::random_range(lo..hi)
}

/// One axis of wall containment: the executable form of `wall_axis`.
fn wall_pass(x: i64, v: i64, bound: i64, damp: i64) -> (r: (i64, i64))
    requires
        -2 * COORD_LIMIT <= x <= 2 * COORD_LIMIT,
        -COORD_LIMIT <= v <= COORD_LIMIT,
        0 <= bound <= COORD_LIMIT,
        0 <= damp <= DAMP_UNIT,
    ensures
        (r.0 as int, r.1 as int) == wall_axis(x as int, v as int, bound as int, damp as int),
        0 <= r.0 <= bound,
        -COORD_LIMIT <= r.1 <= COORD_LIMIT,
{
    if x < 0 {
        (clamp_pos_exec(-x, bound), damp_vel(v, damp))
    } else if x > bound {
        (clamp_pos_exec(2 * bound - x, bound), damp_vel(v, damp))
    } else {
        (x, v)
    }
}

/// `z` clamped into `[0, bound]`: the executable form of `clamp_pos`.
fn clamp_pos_exec(z: i64, bound: i64) -> (r: i64)
    requires
        0 <= bound,
    ensures
        r == clamp_pos(z as int, bound as int),
{
    if z < 0 {
        0
    } else if z > bound {
        bound
    } else {
        z
    }
}

/// The reversed, damped velocity after a wall hit: `-(v * damp) / DAMP_UNIT`,
/// rounded toward zero. Its magnitude never exceeds `v`'s.
fn damp_vel(v: i64, damp: i64) -> (r: i64)
    requires
        -COORD_LIMIT <= v <= COORD_LIMIT,
        0 <= damp <= DAMP_UNIT,
    ensures
        r == -div_trunc(v as int * damp as int, DAMP_UNIT as int),
        -COORD_LIMIT <= r <= COORD_LIMIT,
{
    proof {
        assert(-COORD_LIMIT * DAMP_UNIT <= v * damp <= COORD_LIMIT * DAMP_UNIT)
            by (nonlinear_arith)
            requires
                -COORD_LIMIT <= v <= COORD_LIMIT,
                0 <= damp <= DAMP_UNIT,
        ;
        lemma_div_trunc_le(v as int * damp as int, DAMP_UNIT as int);
        assert(v * damp >= 0 ==> div_trunc(v * damp, DAMP_UNIT as int) <= COORD_LIMIT) by {
            if v * damp >= 0 {
                assert((v * damp) / (DAMP_UNIT as int) <= (COORD_LIMIT * DAMP_UNIT) / (
                DAMP_UNIT as int)) by (nonlinear_arith)
                    requires
                        0 <= v * damp <= COORD_LIMIT * DAMP_UNIT,
                        DAMP_UNIT == 1000,
                ;
            }
        }
        assert(v * damp < 0 ==> div_trunc(v * damp, DAMP_UNIT as int) >= -COORD_LIMIT) by {
            if v * damp < 0 {
                assert((-(v * damp)) / (DAMP_UNIT as int) <= (COORD_LIMIT * DAMP_UNIT) / (
                DAMP_UNIT as int)) by (nonlinear_arith)
                    requires
                        0 < -(v * damp) <= COORD_LIMIT * DAMP_UNIT,
                        DAMP_UNIT == 1000,
                ;
            }
        }
    }
    -div_trunc_i64(v * damp, DAMP_UNIT)
}

} // verus!
