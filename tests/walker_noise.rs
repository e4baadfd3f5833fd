use noise::{NoiseFn, Perlin};
use sketch_kernel::particle::Bounds;
use sketch_kernel::vector::{Vector2, UNIT};
use sketch_kernel::world::World;

fn to_micro(s: f64) -> i64 {
    (s * UNIT as f64).round() as i64
}

fn reference_map(n: f64, a: f64, b: f64, c: f64, d: f64) -> f64 {
    ((d - c) / (b - a)) * (n - a) + c
}

#[test]
fn walker_follows_reference_path() {
    let perlin = Perlin::new(1);
    let bounds = Bounds::new(640 * UNIT, 320 * UNIT);
    let mut w = World::new(bounds, Vector2::new(2_500_000, 2_000_000), 5_000).unwrap();
    let (mut tx, mut ty) = (100.0f64, 0.0f64);
    let expected_phases = [
        Vector2::new(100_005_000, 5_000),
        Vector2::new(100_010_000, 10_000),
        Vector2::new(100_015_000, 15_000),
    ];
    for expected in expected_phases {
        tx += 0.005;
        ty += 0.005;
        let phase = w.step(None);
        assert_eq!(phase, expected);
        let sx = perlin.get([phase.x as f64 / UNIT as f64]);
        let sy = perlin.get([phase.y as f64 / UNIT as f64]);
        w.place_walker(to_micro(sx), to_micro(sy));
        let ex = reference_map(perlin.get([tx]), -1.0, 1.0, -640.0, 640.0);
        let ey = reference_map(perlin.get([ty]), -1.0, 1.0, -320.0, 320.0);
        assert!((w.walker.position.x as f64 / UNIT as f64 - ex).abs() < 1e-3);
        assert!((w.walker.position.y as f64 / UNIT as f64 - ey).abs() < 1e-3);
    }
}

#[test]
fn walker_path_is_reproducible() {
    let run = || {
        let perlin = Perlin::new(1);
        let mut w = World::new(Bounds::new(640 * UNIT, 320 * UNIT), Vector2::new(0, 0), 5_000).unwrap();
        let mut path = Vec::new();
        for _ in 0..1000 {
            let phase = w.step(None);
            let sx = perlin.get([phase.x as f64 / UNIT as f64]);
            let sy = perlin.get([phase.y as f64 / UNIT as f64]);
            w.place_walker(to_micro(sx), to_micro(sy));
            path.push(w.walker.position);
        }
        path
    };
    let first = run();
    assert_eq!(first, run());
    assert!(first.iter().any(|p| *p != first[0]));
    assert!(first.iter().all(|p| p.x.abs() <= 640 * UNIT && p.y.abs() <= 320 * UNIT));
}
