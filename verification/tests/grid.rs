//! Grid, cell and scoring behavior.

use harvester::clock::Clock;
use harvester::field::{grow, Cell, Field, Growth, Position};
use harvester::game::Game;
use harvester::movement::WorldPos;
use harvester::numeric::{isqrt, scaled_dir};

#[test]
fn noise_levels_cover_the_quarters() {
    assert!(matches!(Cell::from_noise_value(-1000), Cell::Crop { level: 1 }));
    assert!(matches!(Cell::from_noise_value(-501), Cell::Crop { level: 1 }));
    assert!(matches!(Cell::from_noise_value(-500), Cell::Crop { level: 2 }));
    assert!(matches!(Cell::from_noise_value(-1), Cell::Crop { level: 2 }));
    assert!(matches!(Cell::from_noise_value(0), Cell::Crop { level: 3 }));
    assert!(matches!(Cell::from_noise_value(499), Cell::Crop { level: 3 }));
    assert!(matches!(Cell::from_noise_value(500), Cell::Crop { level: 4 }));
    assert!(matches!(Cell::from_noise_value(1000), Cell::Crop { level: 4 }));
}

#[test]
fn fresh_field_is_unharvested_level_one() {
    let f = Field::new(31, 15);
    assert_eq!(f.harvested_count(), 0);
    assert!(matches!(f.get(Position { x: 0, y: 0 }), Some(Cell::Crop { level: 1 })));
    assert!(matches!(f.get(Position { x: 30, y: 14 }), Some(Cell::Crop { level: 1 })));
}

#[test]
fn field_from_samples_assigns_levels() {
    let mut samples = vec![0i64; 31 * 15];
    samples[0] = -700;
    samples[1] = 700;
    let f = Field::from_samples(31, 15, &samples);
    assert!(matches!(f.get(Position { x: 0, y: 0 }), Some(Cell::Crop { level: 1 })));
    assert!(matches!(f.get(Position { x: 1, y: 0 }), Some(Cell::Crop { level: 4 })));
    assert!(matches!(f.get(Position { x: 2, y: 0 }), Some(Cell::Crop { level: 3 })));
}

#[test]
fn center_of_field() {
    let f = Field::new(31, 15);
    assert_eq!(f.center(), Position { x: 15, y: 7 });
}

#[test]
fn harvest_yields_level_once() {
    let mut f = Field::new(31, 15);
    let p = Position { x: 3, y: 4 };
    assert_eq!(f.harvest(p), 1);
    assert!(matches!(f.get(p), Some(Cell::Harvested)));
    assert_eq!(f.harvested_count(), 1);
}

#[test]
fn harvest_twice_is_a_no_op() {
    let mut samples = vec![0i64; 31 * 15];
    samples[0] = 900; // level 4 at (0, 0)
    let mut f = Field::from_samples(31, 15, &samples);
    let p = Position { x: 0, y: 0 };
    assert_eq!(f.harvest(p), 4);
    assert_eq!(f.harvest(p), 0);
    assert_eq!(f.harvested_count(), 1);
}

#[test]
fn out_of_bounds_lookup_is_absent_and_harvest_is_a_no_op() {
    let mut f = Field::new(31, 15);
    for p in [
        Position { x: -1, y: 0 },
        Position { x: 31, y: 0 },
        Position { x: 0, y: -1 },
        Position { x: 0, y: 15 },
        Position { x: 1000, y: 1000 },
    ] {
        assert!(f.get(p).is_none());
        assert_eq!(f.harvest(p), 0);
    }
    assert_eq!(f.harvested_count(), 0);
}

#[test]
fn world_coordinates_round_to_the_nearest_cell() {
    let f = Field::new(31, 15);
    assert!(f.get_at(&WorldPos { x: 15_499, y: 7_000 }).is_some());
    assert!(matches!(
        f.get_at(&WorldPos { x: 15_499, y: 7_000 }),
        Some(Cell::Crop { level: 1 })
    ));
    // 15_500 rounds up to cell 16; still in bounds.
    assert!(f.get_at(&WorldPos { x: 15_500, y: 7_000 }).is_some());
    // -499 rounds to cell 0; -500 rounds away from zero to cell -1.
    assert!(f.get_at(&WorldPos { x: -499, y: 0 }).is_some());
    assert!(f.get_at(&WorldPos { x: -500, y: 0 }).is_none());
    assert!(f.get_at(&WorldPos { x: 30_499, y: 14_000 }).is_some());
    assert!(f.get_at(&WorldPos { x: 30_500, y: 14_000 }).is_none());
}

#[test]
fn full_harvest_scores_one_hundred() {
    let mut g = Game::new(31, 15, None, false);
    for y in 0..15 {
        for x in 0..31 {
            g.field.harvest(Position { x, y });
        }
    }
    g.update_score();
    assert_eq!(g.field.harvested_count(), 465);
    assert_eq!(g.score.0, 100);
}

#[test]
fn partial_harvest_scores_a_quarter() {
    let mut g = Game::new(31, 15, None, false);
    let mut left = 116;
    'outer: for y in 0..15 {
        for x in 0..31 {
            if left == 0 {
                break 'outer;
            }
            g.field.harvest(Position { x, y });
            left -= 1;
        }
    }
    g.update_score();
    assert_eq!(g.field.harvested_count(), 116);
    assert_eq!(g.score.0, 25);
}

#[test]
fn crops_grow_one_level_per_interval() {
    let mut f = Field::new(2, 2);
    // Sample 0 everywhere: every cell grows every 4000 ms.
    let mut g = Growth::from_samples(4, None);
    grow(&mut f, &mut g, 3999);
    assert!(matches!(f.get(Position { x: 0, y: 0 }), Some(Cell::Crop { level: 1 })));
    grow(&mut f, &mut g, 1);
    assert!(matches!(f.get(Position { x: 0, y: 0 }), Some(Cell::Crop { level: 2 })));
    assert!(matches!(f.get(Position { x: 1, y: 1 }), Some(Cell::Crop { level: 2 })));
}

#[test]
fn growth_stops_at_ripeness() {
    let mut f = Field::new(2, 2);
    let mut g = Growth::from_samples(4, None);
    for _ in 0..10 {
        grow(&mut f, &mut g, 4000);
    }
    assert!(matches!(f.get(Position { x: 0, y: 0 }), Some(Cell::Crop { level: 4 })));
}

#[test]
fn harvested_ground_never_grows_back() {
    let mut f = Field::new(2, 2);
    let mut g = Growth::from_samples(4, None);
    f.harvest(Position { x: 0, y: 0 });
    grow(&mut f, &mut g, 4000);
    assert!(matches!(f.get(Position { x: 0, y: 0 }), Some(Cell::Harvested)));
    assert_eq!(f.harvested_count(), 1);
}

#[test]
fn disabled_growth_is_inert() {
    let mut f = Field::new(2, 2);
    let mut g = Growth::disabled();
    grow(&mut f, &mut g, 100_000);
    assert!(matches!(f.get(Position { x: 0, y: 0 }), Some(Cell::Crop { level: 1 })));
}

#[test]
fn growth_intervals_follow_the_terrain_sample() {
    let samples = vec![-400i64, 400, -2000, 2000];
    let g = Growth::from_samples(4, Some(&samples));
    assert_eq!(g.timers[0].duration_ms, 3600);
    assert_eq!(g.timers[1].duration_ms, 4400);
    assert_eq!(g.timers[2].duration_ms, 3000);
    assert_eq!(g.timers[3].duration_ms, 5000);
}

#[test]
fn a_growing_session_keeps_its_score_consistent() {
    let mut g = Game::new(31, 15, None, true);
    assert!(g.growth.enabled);
    g.update_score();
    assert_eq!(g.score.0, 0);
}

#[test]
fn repeating_clock_wraps_and_reports_expiry() {
    let mut c = Clock::new(1000, true);
    assert!(!c.tick(400));
    assert_eq!(c.elapsed_ms, 400);
    assert_eq!(c.fraction_milli(), 400);
    assert!(c.tick(600));
    assert_eq!(c.elapsed_ms, 0);
    assert!(c.tick(1700));
    assert_eq!(c.elapsed_ms, 700);
}

#[test]
fn one_shot_clock_saturates() {
    let mut c = Clock::new(500, false);
    assert!(!c.tick(499));
    assert!(!c.finished());
    assert!(c.tick(1));
    assert!(c.finished());
    assert!(!c.tick(100));
    assert!(c.finished());
    assert_eq!(c.elapsed_ms, 500);
}

#[test]
fn integer_square_roots() {
    assert_eq!(isqrt(0), 0);
    assert_eq!(isqrt(1), 1);
    assert_eq!(isqrt(3), 1);
    assert_eq!(isqrt(4), 2);
    assert_eq!(isqrt(305_000_000), 17_464);
}

#[test]
fn scaling_a_vector_keeps_its_direction() {
    assert_eq!(scaled_dir(0, 0, 3000), None);
    assert_eq!(scaled_dir(16_000, 7_000, 3000), Some((2748, 1202)));
    assert_eq!(scaled_dir(-16_000, -7_000, 3000), Some((-2748, -1202)));
    assert_eq!(scaled_dir(5000, 0, 3000), Some((3000, 0)));
    assert_eq!(scaled_dir(0, -5000, 3000), Some((0, -3000)));
}
