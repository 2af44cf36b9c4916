use circle_pack_core::config::PackingConfig;
use circle_pack_core::driver::PackRun;
use circle_pack_core::geometry::Rect;

fn palette(n: usize) -> Vec<String> {
    let mut p = Vec::new();
    for i in 0..n {
        p.push(format!("#{:06x}", i * 7919));
    }
    p
}

fn container() -> Rect {
    Rect { x0: 0, y0: 0, width: 1000, height: 500 }
}

fn run_with(max_stall: u32) -> PackRun {
    let cfg = PackingConfig::new(5, 5, true, palette(2), 4, 5, max_stall).unwrap();
    PackRun::new(&container(), &cfg, 0)
}

#[test]
fn target_area_is_fraction_of_container() {
    // 4/5 of 1000 * 500
    let run = run_with(1000);
    assert_eq!(run.target_area, 400_000);
    assert_eq!(run.occupied_area, 0);
    assert_eq!(run.stall_count, 0);
    assert!(!run.done);
}

#[test]
fn target_area_rounds_down() {
    let cfg = PackingConfig::new(5, 5, true, palette(2), 1, 3, 1000).unwrap();
    let c = Rect { x0: 0, y0: 0, width: 10, height: 10 };
    let run = PackRun::new(&c, &cfg, 0);
    assert_eq!(run.target_area, 33); // 100 / 3, rounded down
}

#[test]
fn run_over_before_start_when_target_met() {
    let cfg = PackingConfig::new(5, 5, true, palette(2), 4, 5, 1000).unwrap();
    let run = PackRun::new(&container(), &cfg, 400_000);
    assert!(run.done);
}

#[test]
fn propose_sizes_candidate_from_clearance() {
    let run = run_with(1000);
    // clearance 20, padding 5: the largest padded circle has radius 15
    assert_eq!(run.propose(-20), Some(15));
    // exactly min_radius is accepted
    assert_eq!(run.propose(-10), Some(5));
}

#[test]
fn propose_stalls_below_min_radius() {
    let run = run_with(1000);
    // clearance 9, padding 5: radius 4 is below min_radius 5
    assert_eq!(run.propose(-9), None);
    // point already inside an obstacle: positive distance
    assert_eq!(run.propose(3), None);
}

#[test]
fn stall_budget_is_respected() {
    // the loop never runs more than max_stall_iterations consecutive stalls
    let mut run = run_with(3);
    run.record_stall();
    assert_eq!(run.stall_count, 1);
    assert!(!run.done);
    run.record_stall();
    assert_eq!(run.stall_count, 2);
    assert!(!run.done);
    run.record_stall();
    assert_eq!(run.stall_count, 3);
    assert!(run.done);
}

#[test]
fn accept_resets_stall_counter() {
    let mut run = run_with(3);
    run.record_stall();
    run.record_stall();
    run.record_accept(100);
    assert_eq!(run.stall_count, 0);
    assert_eq!(run.occupied_area, 100);
    assert!(!run.done);
}

#[test]
fn run_ends_when_target_reached() {
    let mut run = run_with(1000);
    run.record_accept(399_999);
    assert!(!run.done);
    run.record_accept(400_000);
    assert!(run.done);
}

#[test]
fn occupied_area_follows_reported_sums() {
    // the engine reports the running total after each insertion; the
    // driver adopts it unchanged: old value plus the circle's area
    let mut run = run_with(1000);
    let mut expected: i64 = 0;
    for radius in [100i64, 50, 25] {
        let area = (std::f64::consts::PI * (radius * radius) as f64).round() as i64;
        expected += area;
        run.record_accept(run.occupied_area + area);
        assert_eq!(run.occupied_area, expected);
    }
    assert_eq!(expected, 31416 + 7854 + 1963);
}

#[test]
fn same_events_same_states() {
    // determinism: two runs fed the same answers pass through the same states
    let mut a = run_with(7);
    let mut b = run_with(7);
    let events: [Option<i64>; 6] = [None, Some(5000), None, None, Some(12_345), Some(399_000)];
    for e in events {
        match e {
            None => {
                a.record_stall();
                b.record_stall();
            }
            Some(occupied) => {
                a.record_accept(occupied);
                b.record_accept(occupied);
            }
        }
        assert_eq!(a, b);
    }
}
