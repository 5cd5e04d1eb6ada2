use dotsim::point::{Point, SCALE};
use dotsim::particle::Particle;
use dotsim::universe::{Config, Universe};

const S: i64 = SCALE;

#[test]
fn point_ops_exact() {
    let a = Point::new(3 * S, 4 * S);
    let b = Point::new(S, S);
    let d = a.sub(b);
    assert_eq!(d.x, 2 * S);
    assert_eq!(d.y, 3 * S);
    assert_eq!(a.distance_sq(&b), (2 * S as i128) * (2 * S as i128) + (3 * S as i128) * (3 * S as i128));
    assert_eq!(a.inner(b), (3 * S as i128) * (S as i128) + (4 * S as i128) * (S as i128));
    let mut c = Point::new(1, 2);
    c.add_in_place(Point::new(10, 20));
    assert_eq!(c.x, 11);
    assert_eq!(c.y, 22);
}

#[test]
fn magnitude_is_floor_sqrt() {
    assert_eq!(Point::new(3 * S, 4 * S).magnitude(), 5 * S);
    assert_eq!(Point::origin().magnitude(), 0);
    // 1^2 + 1^2 = 2: the floor of sqrt(2) at this scale
    let m = Point::new(S, S).magnitude();
    assert_eq!(m, 1_414_213);
}

#[test]
fn scale_rounds_toward_zero() {
    let half = S / 2;
    let p = Point::new(3 * S, 0).scale(half);
    assert_eq!(p.x, 3 * S / 2);
    // -3 * 500000 / 1000000 = -1.5, truncated toward zero
    let q = Point::new(-3, 0).scale(half);
    assert_eq!(q.x, -1);
    let mut r = Point::new(-3, 7);
    r.scale_in_place(half);
    assert_eq!(r.x, -1);
    assert_eq!(r.y, 3);
}

#[test]
fn particle_defaults_and_new() {
    let d = Particle::default();
    assert_eq!(d.l.x, 0);
    assert_eq!(d.l.y, 0);
    assert_eq!(d.v.x, 0);
    assert_eq!(d.v.y, 0);
    let p = Particle::new(S, 2 * S, -3, 4);
    assert_eq!(p.l.x, S);
    assert_eq!(p.l.y, 2 * S);
    assert_eq!(p.v.x, -3);
    assert_eq!(p.v.y, 4);
}

#[test]
fn collision_detection_boundary() {
    let radius = S;
    let a = Particle::new(0, 0, 0, 0);
    // exactly 2 * RADIUS apart: colliding
    let b = Particle::new(2 * S, 0, 0, 0);
    assert!(a.colliding(&b, radius));
    // one fixed-point unit farther: not colliding
    let c = Particle::new(2 * S + 1, 0, 0, 0);
    assert!(!a.colliding(&c, radius));
}

#[test]
fn collision_conserves_momentum() {
    let a = Particle::new(0, 0, 3 * S, 0);
    let b = Particle::new(S, 0, -S, 0);
    assert!(a.colliding(&b, S));
    let (na, nb) = a.collide(b);
    // head-on equal-mass collision along x: velocities exchange
    assert_eq!(na.v.x, -S);
    assert_eq!(nb.v.x, 3 * S);
    assert_eq!(na.v.x + nb.v.x, a.v.x + b.v.x);
    assert_eq!(na.v.y + nb.v.y, a.v.y + b.v.y);
    // positions are untouched
    assert_eq!(na.l.x, 0);
    assert_eq!(nb.l.x, S);
}

#[test]
fn collision_same_position_skipped() {
    let a = Particle::new(S, S, 7, -7);
    let b = Particle::new(S, S, -2, 3);
    let (na, nb) = a.collide(b);
    assert_eq!(na.v.x, 7);
    assert_eq!(na.v.y, -7);
    assert_eq!(nb.v.x, -2);
    assert_eq!(nb.v.y, 3);
}

#[test]
fn wall_reflection_exact() {
    let mut u = Universe::new();
    // width = 10, height = 12 sub-cells
    u.update_dims(5, 3);
    assert_eq!(u.width, 10);
    assert_eq!(u.height, 12);
    // a particle past the right wall: x = width + 3, vx = 5
    u.add(Particle::new(13 * S, 5 * S, 5 * S, 0));
    u.check_walls();
    let p = u.particles[0];
    // x' = 2 * width - (width + 3) = width - 3, vx' = -5
    assert_eq!(p.l.x, 7 * S);
    assert_eq!(p.v.x, -5 * S);
    assert_eq!(p.l.y, 5 * S);
    assert_eq!(p.v.y, 0);
}

#[test]
fn wall_reflection_lower_bound() {
    let mut u = Universe::new();
    u.update_dims(5, 3);
    u.add(Particle::new(-2 * S, 5 * S, -3 * S, 0));
    u.check_walls();
    let p = u.particles[0];
    assert_eq!(p.l.x, 2 * S);
    assert_eq!(p.v.x, 3 * S);
}

#[test]
fn wall_overshoot_is_clamped() {
    let mut u = Universe::new();
    // width 20 sub-cells, then shrink to 4: a particle at 13 reflects to
    // 2 * 4 - 13 = -5, which the containment policy clamps to the wall
    u.update_dims(10, 3);
    u.add(Particle::new(13 * S, 5 * S, S, 0));
    u.update_dims(2, 3);
    let p = u.particles[0];
    assert_eq!(p.l.x, 0);
    assert!(p.l.y >= 0 && p.l.y <= 12 * S);
}

#[test]
fn resize_idempotent() {
    let mut u = Universe::new();
    u.update_dims(4, 4);
    u.add(Particle::new(3 * S, 7 * S, 42, -17));
    u.update_dims(4, 4);
    let before: Vec<(i64, i64, i64, i64)> =
        u.particles.iter().map(|p| (p.l.x, p.l.y, p.v.x, p.v.y)).collect();
    let (w, h) = (u.width, u.height);
    u.update_dims(4, 4);
    let after: Vec<(i64, i64, i64, i64)> =
        u.particles.iter().map(|p| (p.l.x, p.l.y, p.v.x, p.v.y)).collect();
    assert_eq!(before, after);
    assert_eq!(u.width, w);
    assert_eq!(u.height, h);
}

#[test]
fn tick_moves_by_velocity_dt() {
    let mut u = Universe::new();
    u.update_dims(50, 25);
    // v = 100 sub-cells per time unit, dt = 0.01: one sub-cell per tick
    u.add(Particle::new(10 * S, 10 * S, 100 * S, 0));
    u.tick();
    let p = u.particles[0];
    assert_eq!(p.l.x, 11 * S);
    assert_eq!(p.l.y, 10 * S);
}

#[test]
fn gravity_accelerates_downward() {
    let cfg = Config {
        gravity_enabled: true,
        gravity: S,
        radius: S,
        damp_milli: 1000,
        base_energy: 100 * S,
    };
    let mut u = Universe::new_with(cfg);
    u.update_dims(50, 25);
    u.add(Particle::new(10 * S, 10 * S, 0, 0));
    u.tick();
    let p = u.particles[0];
    // velocity gained g * dt = S / 100; the position moved before the pull
    assert_eq!(p.v.y, S / 100);
    assert_eq!(p.l.y, 10 * S);
    u.tick();
    let p = u.particles[0];
    assert_eq!(p.v.y, 2 * (S / 100));
    // the second step moves by the first step's velocity times dt
    assert_eq!(p.l.y, 10 * S + (S / 100) / 100);
}

#[test]
fn damping_scales_reflected_velocity() {
    let cfg = Config {
        gravity_enabled: false,
        gravity: S,
        radius: S,
        damp_milli: 500,
        base_energy: 100 * S,
    };
    let mut u = Universe::new_with(cfg);
    u.update_dims(5, 3);
    u.add(Particle::new(13 * S, 5 * S, 4 * S, 0));
    u.check_walls();
    let p = u.particles[0];
    assert_eq!(p.l.x, 7 * S);
    assert_eq!(p.v.x, -2 * S);
}

#[test]
fn add_rand_respects_bounds() {
    let mut u = Universe::new();
    u.update_dims(10, 10);
    for _ in 0..50 {
        u.add_rand();
    }
    assert_eq!(u.particles.len(), 50);
    let half = u.config.base_energy / 2;
    for p in u.particles.iter() {
        assert!(p.l.x >= 0 && p.l.x <= 20 * S);
        assert!(p.l.y >= 0 && p.l.y <= 40 * S);
        assert!(p.v.x >= -half && p.v.x <= half);
        assert!(p.v.y >= -half && p.v.y <= half);
    }
}

#[test]
fn containment_after_many_ticks() {
    let mut u = Universe::new();
    u.update_dims(10, 5);
    for _ in 0..20 {
        u.add_rand();
    }
    u.tick_many(200);
    for p in u.particles.iter() {
        assert!(p.l.x >= 0 && p.l.x <= 20 * S);
        assert!(p.l.y >= 0 && p.l.y <= 20 * S);
    }
}
