// Drives a whole run against a small brute-force shape engine: a flat
// list of circles with integer clearance queries, the library deciding
// every round, the scene serialized at the end and audited against the
// configured rules.

use circle_pack_core::audit::check_packing;
use circle_pack_core::config::PackingConfig;
use circle_pack_core::driver::PackRun;
use circle_pack_core::geometry::{Circle, Rect};
use circle_pack_core::scene::{serialize, DrawRecord, ShapeNode, ShapeTree};
use rand::rngs::StdRng;
use rand::{Rng, SeedableRng};

const PADDING: i64 = 3;
const MIN_RADIUS: i64 = 5;
const MAX_STALL: u32 = 40;

fn isqrt(n: i64) -> i64 {
    let mut s = (n as f64).sqrt() as i64;
    while (s + 1) * (s + 1) <= n {
        s += 1;
    }
    while s > 0 && s * s > n {
        s -= 1;
    }
    s
}

/// Clearance from a point to the nearest boundary: container edge or the
/// border of a placed circle.  Rounded down, so it never overstates.
fn clearance(x: i64, y: i64, circles: &[Circle], r: &Rect) -> i64 {
    let mut c = (x - r.x0)
        .min(r.x0 + r.width - x)
        .min(y - r.y0)
        .min(r.y0 + r.height - y);
    for k in circles {
        let d2 = (x - k.cx) * (x - k.cx) + (y - k.cy) * (y - k.cy);
        c = c.min(isqrt(d2) - k.radius);
    }
    c
}

fn palette() -> Vec<String> {
    vec!["#302956".to_string(), "#f3c507".to_string(), "#639aa0".to_string()]
}

fn run_once(seed: u64) -> (Rect, Vec<DrawRecord>, usize) {
    let container = Rect { x0: 0, y0: 0, width: 240, height: 160 };
    let cfg = PackingConfig::new(MIN_RADIUS, PADDING, true, palette(), 1, 4, MAX_STALL).unwrap();
    let mut rng = StdRng::seed_from_u64(seed);
    let mut run = PackRun::new(&container, &cfg, 0);
    let mut circles: Vec<Circle> = Vec::new();
    let mut worst_stall_streak: u32 = 0;
    while !run.done {
        // sample strictly inside the container (the `inside` setting)
        let x = rng.gen_range(1..container.width);
        let y = rng.gen_range(1..container.height);
        let sdf = -clearance(x, y, &circles, &container);
        match run.propose(sdf) {
            Some(radius) => {
                circles.push(Circle { cx: x, cy: y, radius });
                let area = (std::f64::consts::PI * (radius * radius) as f64).ceil() as i64;
                run.record_accept(run.occupied_area + area);
            }
            None => run.record_stall(),
        }
        worst_stall_streak = worst_stall_streak.max(run.stall_count);
    }
    assert!(worst_stall_streak <= MAX_STALL);

    let mut tree = ShapeTree::new(container, 3);
    for (i, c) in circles.iter().enumerate() {
        tree.children.push(ShapeNode { circle: *c, color: i % 3, children: Vec::new() });
    }
    let records = serialize(&tree, &palette());
    (container, records, circles.len())
}

#[test]
fn a_run_terminates_and_places_circles() {
    let (_, records, placed) = run_once(7);
    assert!(placed > 0);
    assert_eq!(records.len(), placed + 2);
}

#[test]
fn emitted_geometry_passes_the_audit() {
    // round-trip: rebuild the spatial facts from the emitted records and
    // hold them against the configured minimum radius and padding
    let (container, records, _) = run_once(7);
    assert!(check_packing(&records, &container, MIN_RADIUS, PADDING));
}

#[test]
fn same_seed_same_scene() {
    let (_, first, placed_first) = run_once(42);
    let (_, second, placed_second) = run_once(42);
    assert_eq!(placed_first, placed_second);
    assert_eq!(first.len(), second.len());
    for (a, b) in first.iter().zip(second.iter()) {
        assert_eq!(a.shape, b.shape);
        assert_eq!(a.fill, b.fill);
    }
}

#[test]
fn different_seeds_usually_differ() {
    let (_, first, _) = run_once(1);
    let (_, second, _) = run_once(2);
    let same = first.len() == second.len()
        && first.iter().zip(second.iter()).all(|(a, b)| a.shape == b.shape);
    assert!(!same);
}
