//! The state machine, the combine's control rules, and whole ticks.

use harvester::combine::{asked_direction, GridDir, Movement};
use harvester::enemy::Enemy;
use harvester::field::Position;
use harvester::game::{Cursor, Game, GameState, InputSample};
use harvester::movement::{Velocity, WorldPos};
use harvester::turret::TurretMode;

fn idle_input() -> InputSample {
    InputSample {
        up: false,
        down: false,
        right: false,
        left: false,
        fire: false,
        start: false,
        cursor: Cursor { x: 0, y: 0 },
    }
}

fn start_input() -> InputSample {
    InputSample { start: true, ..idle_input() }
}

#[test]
fn key_priority_resolves_one_direction() {
    assert_eq!(asked_direction(true, true, true, true), Some(GridDir::PosY));
    assert_eq!(asked_direction(false, true, true, true), Some(GridDir::NegY));
    assert_eq!(asked_direction(false, false, true, true), Some(GridDir::PosX));
    assert_eq!(asked_direction(false, false, false, true), Some(GridDir::NegX));
    assert_eq!(asked_direction(false, false, false, false), None);
}

#[test]
fn exact_reversal_is_rejected() {
    let mut m = Movement::new(GridDir::PosX);
    m.steer(Some(GridDir::NegX));
    assert_eq!(m.control, None);
    m.steer(Some(GridDir::PosY));
    assert_eq!(m.control, Some(GridDir::PosY));
    // A later valid request replaces the earlier one.
    m.steer(Some(GridDir::NegY));
    assert_eq!(m.control, Some(GridDir::NegY));
    // None leaves the latch alone.
    m.steer(None);
    assert_eq!(m.control, Some(GridDir::NegY));
}

#[test]
fn the_latched_direction_applies_on_the_step() {
    let mut m = Movement::new(GridDir::PosX);
    let mut pos = Position { x: 5, y: 5 };
    m.steer(Some(GridDir::PosY));
    // Half a period: no step yet.
    assert!(!m.update(&mut pos, 300));
    assert_eq!(pos, Position { x: 5, y: 5 });
    assert_eq!(m.direction, GridDir::PosX);
    // The period completes: one step in the old direction, then the turn.
    assert!(m.update(&mut pos, 400));
    assert_eq!(pos, Position { x: 6, y: 5 });
    assert_eq!(m.direction, GridDir::PosY);
    assert_eq!(m.control, None);
}

#[test]
fn world_position_interpolates_between_cells() {
    let mut m = Movement::new(GridDir::PosX);
    let mut pos = Position { x: 2, y: 3 };
    assert_eq!(m.world_coord(pos), WorldPos { x: 2000, y: 3000 });
    m.update(&mut pos, 333);
    let w = m.world_coord(pos);
    assert_eq!(w.y, 3000);
    assert_eq!(w.x, 2000 + 333 * 1000 / 667);
}

#[test]
fn direction_inverts_at_the_field_edge() {
    // Combine moving +X at the last column of a 31-wide field.
    let mut m = Movement::new(GridDir::PosX);
    m.reverse_in_front_of_barrier(Position { x: 30, y: 7 }, 31, 15);
    assert_eq!(m.direction, GridDir::NegX);
    // Away from the edge nothing changes.
    let mut m2 = Movement::new(GridDir::PosX);
    m2.reverse_in_front_of_barrier(Position { x: 15, y: 7 }, 31, 15);
    assert_eq!(m2.direction, GridDir::PosX);
}

#[test]
fn the_combine_bounces_without_player_input() {
    // From the center of a 31-wide row, moving +X: the combine reaches
    // x = 30 and turns around on the next boundary check, with no input.
    let mut m = Movement::new(GridDir::PosX);
    let mut pos = Position { x: 15, y: 7 };
    for _ in 0..16 {
        m.reverse_in_front_of_barrier(pos, 31, 15);
        m.update(&mut pos, 667);
    }
    // Fifteen steps reach the edge; the sixteenth bounces back.
    assert_eq!(m.direction, GridDir::NegX);
    assert_eq!(pos, Position { x: 29, y: 7 });
}

#[test]
fn a_new_game_waits_in_ready() {
    let g = Game::new(31, 15, None, false);
    assert_eq!(g.state, GameState::Ready);
    assert_eq!(g.score.0, 0);
    assert_eq!(g.ammo.0, 0);
    assert!(g.enemies.is_empty() && g.bullets.is_empty() && g.items.is_empty());
}

#[test]
fn ready_ignores_everything_but_start() {
    let mut g = Game::new(31, 15, None, false);
    let ev = g.tick(&idle_input(), 500);
    assert_eq!(g.state, GameState::Ready);
    assert!(ev.harvested.is_empty() && ev.player_hits.is_empty());
}

#[test]
fn start_enters_playing_with_a_fresh_session() {
    let mut g = Game::new(31, 15, None, false);
    g.tick(&start_input(), 16);
    assert_eq!(g.state, GameState::Playing);
    assert_eq!(g.score.0, 0);
    assert_eq!(g.ammo.0, 0);
    assert_eq!(g.combine.position, Position { x: 15, y: 7 });
    assert_eq!(g.combine.movement.direction, GridDir::PosX);
}

#[test]
fn one_step_harvests_one_cell_and_grants_ammo() {
    let mut g = Game::new(31, 15, None, false);
    g.tick(&start_input(), 16);
    let ev = g.tick(&idle_input(), 667);
    assert_eq!(g.state, GameState::Playing);
    // One full step: the combine entered the next cell and harvested it.
    assert_eq!(g.combine.position, Position { x: 16, y: 7 });
    assert_eq!(g.field.harvested_count(), 1);
    assert_eq!(ev.harvested.len(), 1);
    assert_eq!(g.ammo.0, 1);
    // One cell of 465 rounds to zero percent.
    assert_eq!(g.score.0, 0);
}

#[test]
fn ticks_accumulate_harvest_and_ammo() {
    let mut g = Game::new(31, 15, None, false);
    g.tick(&start_input(), 16);
    for _ in 0..3 {
        let ev = g.tick(&idle_input(), 667);
        assert_eq!(ev.harvested.len(), 1);
    }
    assert_eq!(g.state, GameState::Playing);
    assert_eq!(g.field.harvested_count(), 3);
    assert_eq!(g.ammo.0, 3);
    // The spawner has been running: enemies exist and are well inside the
    // world box.
    assert!(!g.enemies.is_empty());
}

#[test]
fn an_enemy_reaching_the_combine_ends_the_game() {
    let mut g = Game::new(31, 15, None, false);
    g.tick(&start_input(), 16);
    // Plant an enemy exactly on the combine.
    let combine_world = WorldPos { x: 15_000, y: 7_000 };
    g.enemies.push(Enemy { pos: combine_world, velocity: Velocity { x: 0, y: 0 } });
    let ev = g.tick(&idle_input(), 0);
    assert_eq!(g.state, GameState::GameOver);
    assert!(!ev.player_hits.is_empty());
    // Enemies freeze when the session ends.
    assert_eq!(g.enemies[0].velocity, Velocity { x: 0, y: 0 });
}

#[test]
fn game_over_restarts_through_ready() {
    let mut g = Game::new(31, 15, None, false);
    g.tick(&start_input(), 16);
    g.enemies.push(Enemy {
        pos: WorldPos { x: 15_000, y: 7_000 },
        velocity: Velocity { x: 0, y: 0 },
    });
    g.tick(&idle_input(), 0);
    assert_eq!(g.state, GameState::GameOver);
    // Idle stays in GameOver.
    g.tick(&idle_input(), 100);
    assert_eq!(g.state, GameState::GameOver);
    // Restart: back to Ready with a reset session.
    g.tick(&start_input(), 16);
    assert_eq!(g.state, GameState::Ready);
    assert_eq!(g.score.0, 0);
    assert_eq!(g.field.harvested_count(), 0);
    // And a new session can start.
    g.tick(&start_input(), 16);
    assert_eq!(g.state, GameState::Playing);
}

#[test]
fn firing_through_a_tick_spends_ammo_and_spawns_a_bullet() {
    let mut g = Game::new(31, 15, None, false);
    g.tick(&start_input(), 16);
    let ev = g.tick(&idle_input(), 667);
    assert_eq!(ev.harvested.len(), 1);
    assert_eq!(g.ammo.0, 1);
    let mut input = idle_input();
    input.fire = true;
    input.cursor = Cursor { x: 30_000, y: 7_000 };
    g.tick(&input, 10);
    assert_eq!(g.ammo.0, 0);
    assert_eq!(g.bullets.len(), 1);
    // Aimed straight at the cursor, to the +X side.
    assert!(g.bullets[0].velocity.x > 0);
    assert_eq!(g.bullets[0].velocity.y, 0);
}

#[test]
fn the_step_clock_advances_every_tick() {
    let mut g = Game::new(31, 15, None, false);
    g.tick(&start_input(), 16);
    // A short frame moves no cell but the step clock keeps its time.
    g.tick(&idle_input(), 100);
    assert_eq!(g.combine.position, Position { x: 15, y: 7 });
    assert_eq!(g.combine.movement.timer.elapsed_ms, 100);
    // Six more such frames cross the step period exactly once.
    for _ in 0..6 {
        g.tick(&idle_input(), 100);
    }
    assert_eq!(g.combine.position, Position { x: 16, y: 7 });
    assert_eq!(g.combine.movement.timer.elapsed_ms, 700 - 667);
}

#[test]
fn restart_resets_turret_combine_and_entities() {
    let mut g = Game::new(31, 15, None, false);
    g.tick(&start_input(), 16);
    g.turret.mode = TurretMode::Nuke;
    g.enemies.push(Enemy {
        pos: WorldPos { x: 15_000, y: 7_000 },
        velocity: Velocity { x: 0, y: 0 },
    });
    g.tick(&idle_input(), 0);
    assert_eq!(g.state, GameState::GameOver);
    g.tick(&start_input(), 16);
    assert_eq!(g.state, GameState::Ready);
    assert_eq!(g.turret.mode, TurretMode::Base);
    assert!(g.turret.cool_down.finished());
    assert!(g.enemies.is_empty() && g.bullets.is_empty() && g.items.is_empty());
    assert_eq!(g.combine.position, Position { x: 15, y: 7 });
    assert_eq!(g.combine.movement.timer.elapsed_ms, 0);
    assert_eq!(g.ammo.0, 0);
}

#[test]
fn score_is_monotone_over_a_session() {
    let mut g = Game::new(31, 15, None, false);
    g.tick(&start_input(), 16);
    let mut last = g.score.0;
    for _ in 0..4 {
        g.tick(&idle_input(), 300);
        assert!(g.score.0 >= last);
        last = g.score.0;
    }
}

#[test]
fn growth_feeds_the_harvest() {
    // With growth on, a cell that grew this very tick yields its new
    // level: one 4000 ms frame grows every level-1 cell to level 2 before
    // the combine's step harvests one of them.
    let mut g = Game::new(31, 15, None, true);
    g.tick(&start_input(), 16);
    let ev = g.tick(&idle_input(), 4000);
    assert_eq!(g.state, GameState::Playing);
    assert_eq!(ev.harvested.len(), 2);
    assert_eq!(g.ammo.0, 2);
}

#[test]
fn a_session_on_sampled_terrain_reproduces_its_layout() {
    let samples = vec![700i64; 31 * 15];
    let mut g = Game::new(31, 15, Some(samples), false);
    g.tick(&start_input(), 16);
    // Level-4 crop everywhere: the first harvested cell yields 4 units.
    let ev = g.tick(&idle_input(), 667);
    assert_eq!(ev.harvested.len(), 4);
    assert_eq!(g.ammo.0, 4);
}
