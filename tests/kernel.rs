use sketch_kernel::particle::{Bounds, ReflectingParticle};
use sketch_kernel::range_map::{map_range, DomainError};
use sketch_kernel::segment::{Segment, Slope};
use sketch_kernel::vector::{floor_sqrt, square_sum, Vector2, UNIT};
use sketch_kernel::walker::{NoiseWalker, START_PHASE_X};
use sketch_kernel::world::{ConfigError, World, MAX_EXTENT, STROKE_WIDTH};

fn v(x: i64, y: i64) -> Vector2 {
    Vector2::new(x, y)
}

fn sketch_bounds() -> Bounds {
    Bounds::new(640 * UNIT, 320 * UNIT)
}

#[test]
fn vector_add_sub() {
    assert_eq!(v(1, 2).add(v(10, -20)), v(11, -18));
    assert_eq!(v(1, 2).sub(v(10, -20)), v(-9, 22));
    assert_eq!(Vector2::zero(), v(0, 0));
}

#[test]
fn vector_scale_rounds_down() {
    assert_eq!(v(3 * UNIT, -4 * UNIT).scale(UNIT / 2), v(1_500_000, -2_000_000));
    assert_eq!(v(1, -1).scale(UNIT / 2), v(0, -1));
    assert_eq!(v(7, 9).scale(UNIT), v(7, 9));
}

#[test]
fn vector_length() {
    assert_eq!(v(3 * UNIT, 4 * UNIT).length(), 5 * UNIT as u64);
    assert_eq!(v(1, 1).length(), 1);
    assert_eq!(v(0, 0).length(), 0);
    assert_eq!(v(i64::MIN, i64::MIN).length(), 13_043_817_825_332_782_212);
}

#[test]
fn integer_square_root() {
    assert_eq!(floor_sqrt(0), 0);
    assert_eq!(floor_sqrt(15), 3);
    assert_eq!(floor_sqrt(16), 4);
    assert_eq!(floor_sqrt(1u128 << 126), 1u64 << 63);
    assert_eq!(square_sum(-3, 4), 25);
}

#[test]
fn map_range_basic() {
    assert_eq!(map_range(0, -UNIT, UNIT, -640 * UNIT, 640 * UNIT), Ok(0));
    assert_eq!(map_range(UNIT, -UNIT, UNIT, -640 * UNIT, 640 * UNIT), Ok(640 * UNIT));
    assert_eq!(map_range(-UNIT, -UNIT, UNIT, -640 * UNIT, 640 * UNIT), Ok(-640 * UNIT));
    assert_eq!(map_range(5, 0, 10, 100, 200), Ok(150));
    assert_eq!(map_range(5, 0, 10, 200, 100), Ok(150));
}

#[test]
fn map_range_rounds_down() {
    assert_eq!(map_range(1, 0, 3, 0, 1), Ok(0));
    assert_eq!(map_range(1, 0, 3, 0, -1), Ok(-1));
    assert_eq!(map_range(1, 3, 0, 0, 1), Ok(0));
}

#[test]
fn map_range_empty_interval() {
    assert_eq!(map_range(5, 7, 7, 0, 1), Err(DomainError));
}

#[test]
fn map_range_round_trip() {
    for n in 0..=10 {
        let m = map_range(n, 0, 10, -640 * UNIT, 640 * UNIT).unwrap();
        assert_eq!(map_range(m, -640 * UNIT, 640 * UNIT, 0, 10), Ok(n));
    }
    let m = map_range(7, 0, 10, 0, 3).unwrap();
    let back = map_range(m, 0, 3, 0, 10).unwrap();
    assert!(back <= 7 && (7 - back) * 3 < 10 + 3);
}

#[test]
fn particle_reflects_at_right_edge() {
    let mut p = ReflectingParticle::new(v(639 * UNIT, 0), v(2_500_000, 2_000_000));
    p.step(sketch_bounds());
    assert_eq!(p.position, v(641_500_000, 2_000_000));
    assert_eq!(p.velocity, v(-2_500_000, 2_000_000));
    p.step(sketch_bounds());
    assert_eq!(p.position, v(639 * UNIT, 4_000_000));
    assert_eq!(p.velocity, v(-2_500_000, 2_000_000));
}

#[test]
fn particle_reflects_at_bottom_edge() {
    let mut p = ReflectingParticle::new(v(0, -319 * UNIT), v(0, -3 * UNIT));
    p.step(sketch_bounds());
    assert_eq!(p.position, v(0, -322 * UNIT));
    assert_eq!(p.velocity, v(0, 3 * UNIT));
}

#[test]
fn particle_on_bound_does_not_reflect() {
    let mut p = ReflectingParticle::new(v(638 * UNIT, 0), v(2 * UNIT, 0));
    p.step(sketch_bounds());
    assert_eq!(p.position, v(640 * UNIT, 0));
    assert_eq!(p.velocity, v(2 * UNIT, 0));
}

#[test]
fn particle_flips_once_per_crossing() {
    let b = Bounds::new(10, 10);
    let mut p = ReflectingParticle::new(v(0, 0), v(3, 7));
    let (mut flips, mut crossings) = (0, 0);
    for _ in 0..1000 {
        let before = p.velocity.x;
        p.step(b);
        if p.position.x > 10 || p.position.x < -10 {
            crossings += 1;
        }
        if p.velocity.x != before {
            flips += 1;
        }
        assert!(p.position.x.abs() <= 13 && p.position.y.abs() <= 17);
    }
    assert!(crossings > 0);
    assert_eq!(flips, crossings);
    assert_eq!(p.velocity.x, if crossings % 2 == 0 { 3 } else { -3 });
}

#[test]
fn segment_three_four_five() {
    let s = Segment::from_pts(v(0, 0), v(3 * UNIT, 4 * UNIT), 5 * UNIT);
    assert_eq!(s.length, 5 * UNIT as u64);
    assert_eq!(s.center, v(1_500_000, 2 * UNIT));
    assert_eq!(s.stroke_width, 5 * UNIT);
    assert_eq!(s.slope, Slope::Ratio { rise: 4 * UNIT, run: 3 * UNIT });
}

#[test]
fn segment_vertical() {
    let s = Segment::from_pts(v(0, 0), v(0, 5 * UNIT), 5 * UNIT);
    assert_eq!(s.slope, Slope::Vertical);
    assert_eq!(s.length, 5 * UNIT as u64);
    assert_eq!(s.center, v(0, 2_500_000));
    let down = Segment::from_pts(v(0, 0), v(0, -5 * UNIT), 5 * UNIT);
    assert_eq!(down.slope, Slope::Vertical);
    let empty = Segment::from_pts(v(4, 4), v(4, 4), 1);
    assert_eq!(empty.slope, Slope::Vertical);
    assert_eq!(empty.length, 0);
}

#[test]
fn segment_pointing_left() {
    let s = Segment::from_pts(v(0, 0), v(-2, 1), 1);
    assert_eq!(s.slope, Slope::Ratio { rise: -1, run: 2 });
    assert_eq!(s.center, v(-1, 0));
    assert_eq!(s.length, 2);
}

#[test]
fn walker_new_and_advance() {
    let mut w = NoiseWalker::new();
    assert_eq!(w.phase, v(100 * UNIT, 0));
    assert_eq!(START_PHASE_X, 100 * UNIT);
    w.advance(5_000);
    assert_eq!(w.phase, v(100_005_000, 5_000));
    assert_eq!(w.position, v(0, 0));
}

#[test]
fn walker_place_maps_samples() {
    let mut w = NoiseWalker::new();
    w.place(UNIT, -UNIT, sketch_bounds());
    assert_eq!(w.position, v(640 * UNIT, -320 * UNIT));
    w.place(UNIT / 2, 0, sketch_bounds());
    assert_eq!(w.position, v(320 * UNIT, 0));
    let first = w.position;
    w.place(UNIT / 2, 0, sketch_bounds());
    assert_eq!(w.position, first);
}

#[test]
fn world_config_errors() {
    let vel = v(2_500_000, 2_000_000);
    assert_eq!(World::new(Bounds::new(0, 1), vel, 1), Err(ConfigError::Extent));
    assert_eq!(World::new(Bounds::new(1, MAX_EXTENT + 1), vel, 1), Err(ConfigError::Extent));
    assert_eq!(World::new(sketch_bounds(), v(MAX_EXTENT + 1, 0), 1), Err(ConfigError::Velocity));
    assert_eq!(World::new(sketch_bounds(), vel, -1), Err(ConfigError::PhaseStep));
    let w = World::new(sketch_bounds(), vel, 5_000).unwrap();
    assert_eq!(w.particle.position, v(0, 0));
    assert_eq!(w.particle.velocity, vel);
    assert_eq!(w.walker.phase, v(100 * UNIT, 0));
    assert_eq!(w.cursor, v(0, 0));
}

#[test]
fn world_step_and_cursor() {
    let mut w = World::new(sketch_bounds(), v(2_500_000, 2_000_000), 5_000).unwrap();
    let phase = w.step(Some(v(UNIT, 2 * UNIT)));
    assert_eq!(phase, v(100_005_000, 5_000));
    assert_eq!(w.particle.position, v(2_500_000, 2_000_000));
    assert_eq!(w.cursor, v(UNIT, 2 * UNIT));
    w.step(None);
    assert_eq!(w.cursor, v(UNIT, 2 * UNIT));
    assert_eq!(w.particle.position, v(5 * UNIT, 4 * UNIT));
    w.place_walker(-UNIT, UNIT);
    assert_eq!(w.walker.position, v(-640 * UNIT, 320 * UNIT));
}

#[test]
fn world_segments() {
    let mut w = World::new(sketch_bounds(), v(0, 0), 0).unwrap();
    w.step(Some(v(3 * UNIT, 4 * UNIT)));
    let s = w.segments();
    assert_eq!(s.to_center.center, v(-320 * UNIT, 160 * UNIT));
    assert_eq!(s.to_center.slope, Slope::Ratio { rise: -320 * UNIT, run: 640 * UNIT });
    assert_eq!(s.to_center.length, 715_541_752);
    assert_eq!(s.difference.length, 5 * UNIT as u64);
    assert_eq!(s.difference.stroke_width, STROKE_WIDTH);
    assert_eq!(s.to_cursor.center, v(-318_500_000, 162 * UNIT));
}
