use collage_layout::generator::{generate, select_placements, PlacementError};
use collage_layout::geometry::{overlap, Placement};
use collage_layout::grid::grid_position;

fn p(x: i32, y: i32) -> Placement {
    Placement { x, y }
}

#[test]
fn overlap_is_symmetric_on_samples() {
    let cases = vec![
        (p(0, 0), p(100, 100), 150),
        (p(0, 0), p(150, 0), 150),
        (p(30, 700), p(500, 700), 150),
        (p(-20, 40), p(20, -40), 100),
        (p(7, 7), p(7, 7), 1),
    ];
    for (a, b, e) in cases {
        assert_eq!(overlap(&a, &b, e), overlap(&b, &a, e));
    }
}

#[test]
fn overlap_exact_values() {
    assert!(overlap(&p(0, 0), &p(100, 100), 150));
    assert!(!overlap(&p(0, 0), &p(150, 0), 150));
    assert!(!overlap(&p(0, 0), &p(0, 150), 150));
    assert!(!overlap(&p(0, 0), &p(100, 100), 100));
    assert!(overlap(&p(0, 0), &p(99, 99), 100));
    assert!(overlap(&p(0, 0), &p(0, 0), 1));
    assert!(!overlap(&p(5, 5), &p(5, 5), 0));
}

#[test]
fn selection_follows_greedy_acceptance_exactly() {
    let draws = vec![p(30, 30), p(40, 40), p(400, 400), p(600, 600)];
    let r = select_placements(&draws, 1200, 1400, 100, 50, 2);
    assert_eq!(r, Ok(vec![p(30, 30), p(400, 400)]));
}

#[test]
fn selection_is_deterministic_for_fixed_draws() {
    let draws = vec![
        p(30, 30),
        p(90, 90),
        p(200, 500),
        p(210, 505),
        p(800, 900),
        p(500, 100),
    ];
    let first = select_placements(&draws, 1200, 1400, 100, 50, 4);
    let second = select_placements(&draws, 1200, 1400, 100, 50, 4);
    assert_eq!(first, second);
    assert_eq!(
        first,
        Ok(vec![p(30, 30), p(200, 500), p(800, 900), p(500, 100)])
    );
}

#[test]
fn selection_covers_count_when_draws_suffice() {
    let draws = vec![p(30, 30), p(400, 30), p(30, 400), p(400, 400)];
    let r = select_placements(&draws, 1200, 1400, 100, 50, 4).unwrap();
    assert_eq!(r.len(), 4);
}

#[test]
fn selection_fails_when_draws_run_out() {
    let draws = vec![p(30, 30), p(40, 40), p(400, 400), p(600, 600)];
    let r = select_placements(&draws, 1200, 1400, 100, 50, 4);
    assert_eq!(r, Err(PlacementError::Infeasible));
}

#[test]
fn selection_fails_on_no_draws() {
    let draws: Vec<Placement> = vec![];
    let r = select_placements(&draws, 1200, 1400, 100, 50, 1);
    assert_eq!(r, Err(PlacementError::Infeasible));
}

#[test]
fn generate_scenario_twelve_tiles() {
    let first = generate(1200, 1400, 100, 50, 12, 100_000).unwrap();
    assert_eq!(first.len(), 12);
    for a in &first {
        assert!(30 <= a.x && a.x <= 1200 - 180);
        assert!(30 <= a.y && a.y <= 1400 - 180);
    }
    for i in 0..first.len() {
        for j in 0..first.len() {
            if i != j {
                assert!(!overlap(&first[i], &first[j], 150));
            }
        }
    }
    let second = generate(1200, 1400, 100, 50, 12, 100_000).unwrap();
    assert_eq!(second.len(), 12);
    for a in &second {
        assert!(30 <= a.x && a.x <= 1200 - 180);
        assert!(30 <= a.y && a.y <= 1400 - 180);
    }
    assert_ne!(first, second);
}

#[test]
fn generate_reports_infeasible_small_window() {
    let r = generate(250, 250, 100, 50, 12, 5_000);
    assert_eq!(r, Err(PlacementError::Infeasible));
}

#[test]
fn generate_rejects_canvas_without_window() {
    assert_eq!(
        generate(200, 1400, 100, 50, 12, 1_000),
        Err(PlacementError::CanvasTooSmall)
    );
    assert_eq!(
        generate(1200, 210, 100, 50, 12, 1_000),
        Err(PlacementError::CanvasTooSmall)
    );
}

#[test]
fn generate_single_tile_draw_stays_in_window() {
    let r = generate(211, 211, 100, 50, 1, 1).unwrap();
    assert_eq!(r.len(), 1);
    assert_eq!(r[0], p(30, 30));
    let wide = generate(1200, 1400, 100, 50, 1, 1).unwrap();
    assert!(30 <= wide[0].x && wide[0].x < 1200 - 180);
    assert!(30 <= wide[0].y && wide[0].y < 1400 - 180);
}

#[test]
fn grid_slot_for_index_seven() {
    let (x, y) = grid_position(7, 6, 400, 1850, 150);
    assert_eq!(x, 400 + 1 * 150);
    assert_eq!(y, 1850 + 1 * 150);
}

#[test]
fn grid_slots_walk_rows() {
    assert_eq!(grid_position(0, 6, 400, 1850, 150), (400, 1850));
    assert_eq!(grid_position(5, 6, 400, 1850, 150), (400 + 5 * 150, 1850));
    assert_eq!(grid_position(6, 6, 400, 1850, 150), (400, 2000));
    assert_eq!(grid_position(11, 6, 400, 1850, 150), (1150, 2000));
}
