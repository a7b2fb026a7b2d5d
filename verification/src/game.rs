//! The game state machine, scoring, and the tick function that drives
//! every subsystem in one fixed phase order.

use vstd::prelude::*;

verus! {

use crate::clock::Clock;
use crate::combine::{
    GridDir, Harvested, Harvester, Movement, STEP_PERIOD_MS, asked_dir_spec, asked_direction,
};
use crate::despawn::{DespawnTimer, sweep_bullets, sweep_items, swept_bullets, swept_items};
use crate::enemy::{
    Enemy, PlayerHit, SPAWN_PERIOD_MS, SpawnTimer, aimed, count_touching, frozen_enemies,
    moved_enemy, on_spawn_perimeter, spawned_at,
};
use crate::field::{
    Cell, Field, Growth, Position, count_harvested, grid_harvest, grow, grown_cells_spec,
    grown_timers_spec, noise_level,
};
use crate::movement::{Velocity, WorldPos};
use crate::numeric::{clamp_coord, clamp_spec, dir_component, round_coord, round_to_cell};
use crate::turret::{
    AimDir, Ammo, Bullet, ITEM_TTL_MS, Item, Turret, TurretMode, enemy_survives, fan_size,
    fresh_cool_down, last_collected_mode, moved_bullet, reloaded, remaining_items,
    surviving_bullets, surviving_enemies, volley_bullet,
};

/// The top-level session phase. Transitions: Ready to Playing on a start
/// input; Playing to GameOver on a player hit; GameOver to Ready on a
/// restart input.
#[derive(Debug, Clone, Copy, PartialEq, Eq, Structural, Hash)]
pub enum GameState {
    Ready,
    Playing,
    GameOver,
}

/// The harvested fraction of the field as a percentage, rounded to the
/// nearest whole percent: a derived value, recomputed when a harvest
/// occurs, never independently mutated.
#[derive(Debug, Clone, Copy, PartialEq, Eq, Structural)]
pub struct Score(pub u32);

/// The pointer's sampled world position, in fixed-point units.
#[derive(Debug, Clone, Copy, PartialEq, Eq, Structural)]
pub struct Cursor {
    pub x: i64,
    pub y: i64,
}

/// Everything the core consumes in one tick: discrete key states, the fire
/// signal, the pointer sample, and the start/restart signal.
#[derive(Debug, Clone, Copy, PartialEq, Eq, Structural)]
pub struct InputSample {
    pub up: bool,
    pub down: bool,
    pub right: bool,
    pub left: bool,
    pub fire: bool,
    pub start: bool,
    pub cursor: Cursor,
}

/// The one-shot events a tick emits for the presentation layer: one
/// `Harvested` per harvested crop value unit, one `PlayerHit` per
/// enemy-combine contact (duplicates are the consumer's to coalesce).
#[derive(Debug)]
pub struct TickEvents {
    pub harvested: Vec<Harvested>,
    pub player_hits: Vec<PlayerHit>,
}

/// The score formula: 100 times the harvested fraction, rounded to the
/// nearest whole percent.
pub open spec fn score_of(harvested: int, total: int) -> int {
    (200 * harvested + total) / (2 * total)
}

/// The score never moves backward as cells are harvested.
pub proof fn lemma_score_monotone(h1: int, h2: int, t: int)
    requires
        0 <= h1 <= h2,
        1 <= t,
    ensures
        score_of(h1, t) <= score_of(h2, t),
{
    vstd::arithmetic::div_mod::lemma_div_is_ordered(200 * h1 + t, 200 * h2 + t, 2 * t);
}

/// The score of an unharvested field is zero.
pub proof fn lemma_score_empty(t: int)
    requires
        1 <= t,
    ensures
        score_of(0, t) == 0,
{
    vstd::arithmetic::div_mod::lemma_basic_div(t, 2 * t);
}

/// The score never exceeds one hundred percent.
pub proof fn lemma_score_bounds(h: int, t: int)
    requires
        0 <= h <= t,
        1 <= t,
    ensures
        0 <= score_of(h, t) <= 100,
{
    assert(200 * h + t < (2 * t) * 101) by (nonlinear_arith)
        requires
            0 <= h <= t,
            1 <= t,
    ;
    vstd::arithmetic::div_mod::lemma_multiply_divide_lt(200 * h + t, 2 * t, 101);
    vstd::arithmetic::div_mod::lemma_div_pos_is_pos(200 * h + t, 2 * t);
}

/// Whether a field's cells carry exactly the initial crop the stored
/// terrain samples dictate: the sampled levels with samples, uniform
/// level-1 crop without.
pub open spec fn field_matches_samples(f: Field, samples: Option<Vec<i64>>) -> bool {
    match samples {
        Some(s) => forall|i: int|
            0 <= i < f.cells@.len() ==> ((#[trigger] f.cells@[i]) matches Cell::Crop { level }
                && level == noise_level(s@[i] as int)),
        None => forall|i: int|
            0 <= i < f.cells@.len() ==> (#[trigger] f.cells@[i]) == (Cell::Crop { level: 1u8 }),
    }
}

/// The full session reset that every entry into a new session performs:
/// the field rebuilt to its initial crop from the stored samples, the
/// combine recentered heading +X with a fresh step clock, the turret back
/// to Base with an expired cooldown, ammo and score zeroed, the aim reset,
/// the spawn and growth clocks restarted, and every session entity gone.
pub open spec fn session_reset(pre: Game, post: Game) -> bool {
    &&& post.samples == pre.samples
    &&& post.field.width == pre.field.width
    &&& post.field.height == pre.field.height
    &&& post.field.harvested() == 0
    &&& field_matches_samples(post.field, post.samples)
    &&& post.score.0 == 0
    &&& post.ammo.0 == 0
    &&& post.enemies@.len() == 0
    &&& post.bullets@.len() == 0
    &&& post.items@.len() == 0
    &&& post.combine.position == (Position {
        x: (pre.field.width / 2) as i32,
        y: (pre.field.height / 2) as i32,
    })
    &&& post.combine.movement.direction == GridDir::PosX
    &&& post.combine.movement.control is None
    &&& post.combine.movement.timer.elapsed_ms == 0
    &&& post.combine.movement.timer.duration_ms == STEP_PERIOD_MS
    &&& post.turret == (Turret {
        cool_down: Clock { elapsed_ms: 0u32, duration_ms: 0u32, repeating: false },
        mode: TurretMode::Base,
    })
    &&& post.aim == (AimDir { x: 1000i64, y: 0i64 })
    &&& post.spawn_timer.0.elapsed_ms == 0
    &&& post.spawn_timer.0.duration_ms == SPAWN_PERIOD_MS
    &&& post.growth.enabled == pre.growth.enabled
    &&& (post.growth.enabled ==> post.growth.timers@.len() == post.field.cells@.len() && forall|
        i: int,
    |
        0 <= i < post.growth.timers@.len() ==> (#[trigger] post.growth.timers@[i]).elapsed_ms == 0)
}

/// The cursor sample confined to the world box.
pub open spec fn clamped_cursor(c: Cursor) -> WorldPos {
    WorldPos { x: clamp_spec(c.x as int) as i64, y: clamp_spec(c.y as int) as i64 }
}

/// The turret aim after one cursor sample: the normalized separation from
/// the turret to the cursor, or the previous aim when that separation is
/// degenerate.
pub open spec fn aim_update(turret_pos: WorldPos, cursor: WorldPos, prev: AimDir) -> AimDir {
    let dx = cursor.x - turret_pos.x;
    let dy = cursor.y - turret_pos.y;
    if dx == 0 && dy == 0 {
        prev
    } else {
        AimDir {
            x: dir_component(dx, (dx * dx + dy * dy) as nat, 1000) as i64,
            y: dir_component(dy, (dx * dx + dy * dy) as nat, 1000) as i64,
        }
    }
}

/// The combine after one tick: the steering request latched, the bounce
/// rule applied, and the step clock advanced — stepping the grid position
/// and switching to the latched direction when the clock expires.
pub open spec fn combine_after(
    c: Harvester,
    input: InputSample,
    width: u32,
    height: u32,
    delta_ms: int,
) -> Harvester {
    let m1 = c.movement.steered(asked_dir_spec(input.up, input.down, input.right, input.left));
    let m2 = m1.bounced_at(c.position, width, height);
    Harvester { position: m2.moved_pos(c.position, delta_ms), movement: m2.updated(delta_ms) }
}

/// What holds of the enemy roster after the spawn draw, whatever the draw:
/// exactly one enemy appended when the spawn clock fired — at rest, on the
/// field's outer perimeter — then every contact with the combine counted,
/// and the whole roster frozen when the session ends on a hit.
pub open spec fn spawn_outcome(
    width: u32,
    height: u32,
    spawn_clock: Clock,
    delta_ms: int,
    combine_pos: WorldPos,
    kept: Seq<Enemy>,
    post_enemies: Seq<Enemy>,
    hits: int,
    spawned: Seq<Enemy>,
) -> bool {
    &&& spawned.len() <= 1
    &&& (forall|i: int|
        0 <= i < spawned.len() ==> (#[trigger] spawned[i]).velocity == (Velocity {
            x: 0i64,
            y: 0i64,
        }) && exists|p: Position| #[trigger] spawned_at(spawned[i], p) && on_spawn_perimeter(
            p,
            width,
            height,
        ))
    &&& (spawned.len() == 1 <==> spawn_clock.elapsed_ms + delta_ms >= spawn_clock.duration_ms)
    &&& hits == count_touching(combine_pos, kept + spawned)
    &&& post_enemies == (if hits > 0 {
        frozen_enemies(kept + spawned)
    } else {
        kept + spawned
    })
}

/// What holds of the items and the weapon mode after the drop draws,
/// whatever the draws: at most one dropped item per killed enemy, each
/// lying where its enemy died with a fresh full lifetime; then the
/// deterministic pickup and expiry pipeline runs over the combined row,
/// the last item within the combine's reach setting the mode.
pub open spec fn drop_outcome(
    combine_pos: WorldPos,
    enemies2: Seq<Enemy>,
    bullets2: Seq<Bullet>,
    killed: int,
    pre_items: Seq<Item>,
    mode2: TurretMode,
    delta_ms: int,
    post_items: Seq<Item>,
    post_mode: TurretMode,
    drops: Seq<Item>,
) -> bool {
    &&& drops.len() <= killed
    &&& (forall|i: int|
        0 <= i < drops.len() ==> (#[trigger] drops[i]).expiry == (DespawnTimer(
            Clock { elapsed_ms: 0u32, duration_ms: ITEM_TTL_MS, repeating: false },
        )) && exists|j: int|
            0 <= j < enemies2.len() && !enemy_survives(#[trigger] enemies2[j], bullets2)
                && drops[i].pos == enemies2[j].pos)
    &&& post_items == swept_items(remaining_items(pre_items + drops, combine_pos), delta_ms)
    &&& post_mode == (match last_collected_mode(pre_items + drops, combine_pos) {
        Some(m) => m,
        None => mode2,
    })
}

/// The first half of a Playing tick: input, aiming, movement
/// integration, growth, harvest and scoring. Everything here is a
/// deterministic function of the previous state and the input sample;
/// the turret, ammo, items, spawn clock, phase and samples are untouched.
pub open spec fn advance_outcome(
    pre: Game,
    input: InputSample,
    delta_ms: int,
    post: Game,
    gained: int,
    w1: WorldPos,
) -> bool {
    let width = pre.field.width;
    let height = pre.field.height;
    let combine1 = combine_after(pre.combine, input, width, height, delta_ms);
    let w0 = pre.combine.movement.world_of(pre.combine.position);
    let cells1 = if pre.growth.enabled {
        grown_cells_spec(pre.field.cells@, pre.growth.timers@, delta_ms)
    } else {
        pre.field.cells@
    };
    let hv = grid_harvest(
        width as int,
        height as int,
        cells1,
        round_to_cell(w1.x as int),
        round_to_cell(w1.y as int),
    );
    &&& post.combine == combine1
    &&& w1 == combine1.movement.world_of(combine1.position)
    &&& post.aim == aim_update(w0, clamped_cursor(input.cursor), pre.aim)
    &&& post.enemies@ == Seq::new(
        pre.enemies@.len(),
        |i: int| moved_enemy(aimed(pre.enemies@[i], w0), delta_ms),
    )
    &&& post.bullets@ == Seq::new(pre.bullets@.len(), |i: int| moved_bullet(pre.bullets@[i], delta_ms))
    &&& post.field.width == width
    &&& post.field.height == height
    &&& post.field.cells@ == hv.0
    &&& gained == hv.1
    &&& post.score.0 == (if gained > 0 {
        score_of(count_harvested(hv.0), width * height)
    } else {
        pre.score.0 as int
    })
    &&& post.growth.enabled == pre.growth.enabled
    &&& post.growth.timers@ == (if pre.growth.enabled {
        grown_timers_spec(pre.growth.timers@, delta_ms)
    } else {
        pre.growth.timers@
    })
    &&& post.turret == pre.turret
    &&& post.ammo == pre.ammo
    &&& post.items@ == pre.items@
    &&& post.spawn_timer == pre.spawn_timer
    &&& post.state == pre.state
    &&& post.samples == pre.samples
}

/// Ammo after this tick's replenishment from the harvest.
pub open spec fn co_ammo1(pre: Game, gained: int) -> int {
    reloaded(pre.ammo.0 as int, gained)
}

/// Whether a shot goes out this tick: cooldown run out, fire held, and
/// a shot in store after replenishment.
pub open spec fn co_fired(pre: Game, input: InputSample, delta_ms: int, gained: int) -> bool {
    pre.turret.cool_down.elapsed_ms + delta_ms >= pre.turret.cool_down.duration_ms && input.fire
        && co_ammo1(pre, gained) > 0
}

/// The weapon mode after a possible shot: Nuke falls back to Base.
pub open spec fn co_mode2(pre: Game, input: InputSample, delta_ms: int, gained: int) -> TurretMode {
    if co_fired(pre, input, delta_ms, gained) && pre.turret.mode is Nuke {
        TurretMode::Base
    } else {
        pre.turret.mode
    }
}

/// The volley a successful shot adds, fired from the combine along the
/// current aim; empty when firing is refused.
pub open spec fn co_volley(
    pre: Game,
    input: InputSample,
    delta_ms: int,
    gained: int,
    w1: WorldPos,
) -> Seq<Bullet> {
    if co_fired(pre, input, delta_ms, gained) {
        Seq::new(
            fan_size(pre.turret.mode) as nat,
            |i: int| volley_bullet(pre.turret.mode, w1, pre.aim, i),
        )
    } else {
        Seq::<Bullet>::empty()
    }
}

/// All bullets in flight once the volley is out.
pub open spec fn co_bullets2(
    pre: Game,
    input: InputSample,
    delta_ms: int,
    gained: int,
    w1: WorldPos,
) -> Seq<Bullet> {
    pre.bullets@ + co_volley(pre, input, delta_ms, gained, w1)
}

/// The enemies that survive this tick's all-pairs collision.
pub open spec fn co_kept(
    pre: Game,
    input: InputSample,
    delta_ms: int,
    gained: int,
    w1: WorldPos,
) -> Seq<Enemy> {
    surviving_enemies(pre.enemies@, co_bullets2(pre, input, delta_ms, gained, w1))
}

/// The second half of a Playing tick: the ammo economy, the shot and its
/// volley, all-pairs collision, item pickup, the spawn draw, player-hit
/// detection, the phase transition, and the despawn sweeps — everything
/// on the post-movement positions, the random outcomes holding for some
/// admissible spawn and drop rows.
pub open spec fn combat_outcome(
    pre: Game,
    input: InputSample,
    delta_ms: int,
    gained: int,
    w1: WorldPos,
    post: Game,
    hits: int,
) -> bool {
    &&& post.ammo.0 == (if co_fired(pre, input, delta_ms, gained) {
        co_ammo1(pre, gained) - 1
    } else {
        co_ammo1(pre, gained)
    })
    &&& post.turret.cool_down == (if co_fired(pre, input, delta_ms, gained) {
        fresh_cool_down()
    } else {
        pre.turret.cool_down.ticked(delta_ms)
    })
    &&& post.bullets@ == swept_bullets(
        surviving_bullets(co_bullets2(pre, input, delta_ms, gained, w1), pre.enemies@),
        delta_ms,
    )
    &&& post.spawn_timer.0.duration_ms == pre.spawn_timer.0.duration_ms
    &&& post.spawn_timer.0.elapsed_ms == (pre.spawn_timer.0.elapsed_ms + delta_ms) % (
    pre.spawn_timer.0.duration_ms as int)
    &&& post.state == (if hits > 0 {
        GameState::GameOver
    } else {
        pre.state
    })
    &&& (exists|spawned: Seq<Enemy>|
        #[trigger] spawn_outcome(
            pre.field.width,
            pre.field.height,
            pre.spawn_timer.0,
            delta_ms,
            w1,
            co_kept(pre, input, delta_ms, gained, w1),
            post.enemies@,
            hits,
            spawned,
        ))
    &&& (exists|drops: Seq<Item>|
        #[trigger] drop_outcome(
            w1,
            pre.enemies@,
            co_bullets2(pre, input, delta_ms, gained, w1),
            pre.enemies@.len() - co_kept(pre, input, delta_ms, gained, w1).len(),
            pre.items@,
            co_mode2(pre, input, delta_ms, gained),
            delta_ms,
            post.items@,
            post.turret.mode,
            drops,
        ))
    &&& post.field == pre.field
    &&& post.score == pre.score
    &&& post.aim == pre.aim
    &&& post.combine == pre.combine
    &&& post.growth == pre.growth
    &&& post.samples == pre.samples
}

/// Everything one Playing tick does: the deterministic world advance
/// (`advance_outcome`) composed with combat resolution (`combat_outcome`)
/// through the intermediate state they share, the tick's events carrying
/// the harvested crop value and the player contacts. The intermediate
/// state, harvest gain and combine position are fully determined by the
/// previous state and the input; only the spawn and drop draws inside
/// `combat_outcome` are left to chance.
pub open spec fn playing_outcome(
    pre: Game,
    input: InputSample,
    delta_ms: int,
    post: Game,
    ev: TickEvents,
) -> bool {
    exists|mid: Game, gained: int, w1: WorldPos, hits: int|
        {
            &&& #[trigger] advance_outcome(pre, input, delta_ms, mid, gained, w1)
            &&& #[trigger] combat_outcome(mid, input, delta_ms, gained, w1, post, hits)
            &&& ev.harvested@.len() == gained
            &&& ev.player_hits@.len() == hits
        }
}

/// The whole simulation: world state, entities, and the session phase.
/// Entities carry no engine ownership; systems are the plain functions the
/// tick calls in its fixed phase order.
#[derive(Debug)]
pub struct Game {
    pub state: GameState,
    pub field: Field,
    pub score: Score,
    pub combine: Harvester,
    pub turret: Turret,
    pub ammo: Ammo,
    pub aim: AimDir,
    pub enemies: Vec<Enemy>,
    pub bullets: Vec<Bullet>,
    pub items: Vec<Item>,
    pub spawn_timer: SpawnTimer,
    pub growth: Growth,
    pub samples: Option<Vec<i64>>,
}

impl Game {
    /// The whole-game invariant: every component well-formed, the combine
    /// inside the field while a session runs, and the score equal to the
    /// score formula over the field at all times.
    pub open spec fn wf(self) -> bool {
        &&& self.field.wf()
        &&& self.turret.wf()
        &&& self.ammo.wf()
        &&& self.combine.movement.wf()
        &&& self.aim.wf()
        &&& self.spawn_timer.0.wf()
        &&& self.spawn_timer.0.repeating
        &&& (self.state is Playing ==> self.field.in_bounds(self.combine.position))
        &&& (forall|i: int| 0 <= i < self.enemies@.len() ==> (#[trigger] self.enemies@[i]).wf())
        &&& (forall|i: int| 0 <= i < self.bullets@.len() ==> (#[trigger] self.bullets@[i]).wf())
        &&& (forall|i: int| 0 <= i < self.items@.len() ==> (#[trigger] self.items@[i]).wf())
        &&& (self.samples matches Some(s) ==> s@.len() == self.field.width * self.field.height)
        &&& self.growth.wf_for(self.field.cells@.len() as int)
        &&& self.score.0 == score_of(self.field.harvested(), self.field.total())
    }

    /// A new game in the Ready phase. Crop levels come from the terrain
    /// samples when given (one per cell, row-major, in thousandths), so a
    /// layout reproduces whenever the same samples are handed back.
    pub fn new(width: u32, height: u32, samples: Option<Vec<i64>>, grow_crops: bool) -> (g: Game)
        requires
            crate::field::MIN_FIELD_SIDE <= width <= crate::field::MAX_FIELD_SIDE,
            crate::field::MIN_FIELD_SIDE <= height <= crate::field::MAX_FIELD_SIDE,
            samples matches Some(s) ==> s@.len() == width * height,
        ensures
            g.wf(),
            g.growth.enabled == grow_crops,
            g.state == GameState::Ready,
            g.score.0 == 0,
            g.field.width == width,
            g.field.height == height,
            g.field.harvested() == 0,
            g.samples == samples,
            field_matches_samples(g.field, g.samples),
            g.ammo.0 == 0,
            g.enemies@.len() == 0 && g.bullets@.len() == 0 && g.items@.len() == 0,
            g.combine.position == (Position { x: (width / 2) as i32, y: (height / 2) as i32 }),
            g.combine.movement.direction == GridDir::PosX,
            g.turret == (Turret {
                cool_down: Clock { elapsed_ms: 0u32, duration_ms: 0u32, repeating: false },
                mode: TurretMode::Base,
            }),
    {
        let field = match &samples {
            Some(s) => Field::from_samples(width, height, s),
            None => Field::new(width, height),
        };
        let center = field.center();
        proof {
            crate::field::lemma_total_bounds(field);
            lemma_score_empty(field.total());
        }
        let growth = if grow_crops {
            match &samples {
                Some(s) => Growth::from_samples(field.cells.len(), Some(s)),
                None => Growth::from_samples(field.cells.len(), None),
            }
        } else {
            Growth::disabled()
        };
        Game {
            state: GameState::Ready,
            score: Score(0),
            combine: Harvester { position: center, movement: Movement::new(GridDir::PosX) },
            turret: Turret::default(),
            ammo: Ammo::new(),
            aim: AimDir { x: 1000, y: 0 },
            enemies: Vec::new(),
            bullets: Vec::new(),
            items: Vec::new(),
            spawn_timer: SpawnTimer::default(),
            field,
            growth,
            samples,
        }
    }

    /// Tear down and rebuild the Playing-session state, as `session_reset`
    /// describes.
    fn reset_session(&mut self)
        requires
            old(self).wf(),
        ensures
            final(self).wf(),
            final(self).state == old(self).state,
            session_reset(*old(self), *final(self)),
            final(self).field.in_bounds(final(self).combine.position),
    {
        let width = self.field.width;
        let height = self.field.height;
        let field = match &self.samples {
            Some(s) => Field::from_samples(width, height, s),
            None => Field::new(width, height),
        };
        self.field = field;
        let center = self.field.center();
        self.combine = Harvester { position: center, movement: Movement::new(GridDir::PosX) };
        self.turret = Turret::default();
        self.ammo = Ammo::new();
        self.aim = AimDir { x: 1000, y: 0 };
        self.enemies = Vec::new();
        self.bullets = Vec::new();
        self.items = Vec::new();
        self.spawn_timer = SpawnTimer::default();
        self.growth = if self.growth.enabled {
            match &self.samples {
                Some(s) => Growth::from_samples(self.field.cells.len(), Some(s)),
                None => Growth::from_samples(self.field.cells.len(), None),
            }
        } else {
            Growth::disabled()
        };
        self.score = Score(0);
        proof {
            crate::field::lemma_total_bounds(self.field);
            lemma_score_empty(self.field.total());
        }
    }

    /// The current score recomputed from the field.
    pub fn update_score(&mut self)
        requires
            old(self).field.wf(),
        ensures
            *final(self) == (Game { score: final(self).score, ..*old(self) }),
            final(self).score.0 == score_of(old(self).field.harvested(), old(self).field.total()),
    {
        proof {
            crate::field::lemma_total_bounds(self.field);
            crate::field::lemma_count_harvested_bounds(self.field.cells@);
            lemma_score_bounds(self.field.harvested(), self.field.total());
        }
        let h: u64 = self.field.harvested_count() as u64;
        let t: u64 = (self.field.width as u64) * (self.field.height as u64);
        let s: u64 = (200 * h + t) / (2 * t);
        self.score = Score(s as u32);
    }

    /// Drive the whole simulation by one frame: one elapsed-time sample,
    /// one input sample, a fixed phase order — input, aiming, movement
    /// integration, harvest and collision resolution, state-machine
    /// evaluation, despawn sweep — and the tick's one-shot events out.
    ///
    /// A Playing tick does exactly what `playing_outcome` spells out; over
    /// it the score never decreases, at most one cell is harvested, and
    /// the session ends exactly when an enemy reaches the combine.
    pub fn tick(&mut self, input: &InputSample, delta_ms: u32) -> (ev: TickEvents)
        requires
            old(self).wf(),
            delta_ms <= crate::MAX_TICK_MS,
        ensures
            final(self).wf(),
            final(self).field.width == old(self).field.width,
            final(self).field.height == old(self).field.height,
            match old(self).state {
                GameState::Ready => {
                    &&& final(self).state == (if input.start {
                        GameState::Playing
                    } else {
                        GameState::Ready
                    })
                    &&& ev.harvested@.len() == 0 && ev.player_hits@.len() == 0
                    &&& (input.start ==> session_reset(*old(self), *final(self)))
                    &&& (!input.start ==> *final(self) == *old(self))
                },
                GameState::GameOver => {
                    &&& final(self).state == (if input.start {
                        GameState::Ready
                    } else {
                        GameState::GameOver
                    })
                    &&& ev.harvested@.len() == 0 && ev.player_hits@.len() == 0
                    &&& (input.start ==> session_reset(*old(self), *final(self)))
                    &&& (!input.start ==> *final(self) == *old(self))
                },
                GameState::Playing => {
                    &&& playing_outcome(*old(self), *input, delta_ms as int, *final(self), ev)
                    &&& (final(self).state is GameOver <==> ev.player_hits@.len() > 0)
                    &&& (final(self).state is Playing <==> ev.player_hits@.len() == 0)
                    &&& final(self).score.0 >= old(self).score.0
                    &&& old(self).field.harvested() <= final(self).field.harvested() <= old(
                        self,
                    ).field.harvested() + 1
                    &&& (ev.harvested@.len() > 0 <==> final(self).field.harvested() == old(
                        self,
                    ).field.harvested() + 1)
                },
            },
    {
        match self.state {
            GameState::Ready => {
                if input.start {
                    self.reset_session();
                    self.state = GameState::Playing;
                }
                make_events(0, 0)
            },
            GameState::GameOver => {
                if input.start {
                    self.reset_session();
                    self.state = GameState::Ready;
                }
                make_events(0, 0)
            },
            GameState::Playing => self.playing_tick(input, delta_ms),
        }
    }

    /// One frame of the running session: the deterministic world advance,
    /// then combat resolution, composed into `playing_outcome`.
    #[verifier::rlimit(100)]
    fn playing_tick(&mut self, input: &InputSample, delta_ms: u32) -> (ev: TickEvents)
        requires
            old(self).wf(),
            old(self).state is Playing,
            delta_ms <= crate::MAX_TICK_MS,
        ensures
            final(self).wf(),
            playing_outcome(*old(self), *input, delta_ms as int, *final(self), ev),
            final(self).field.width == old(self).field.width,
            final(self).field.height == old(self).field.height,
            (final(self).state is GameOver <==> ev.player_hits@.len() > 0),
            (final(self).state is Playing <==> ev.player_hits@.len() == 0),
            final(self).score.0 >= old(self).score.0,
            old(self).field.harvested() <= final(self).field.harvested() <= old(
                self,
            ).field.harvested() + 1,
            (ev.harvested@.len() > 0 <==> final(self).field.harvested() == old(
                self,
            ).field.harvested() + 1),
    {
        let ghost pre = *old(self);
        let ghost delta_g = delta_ms as int;
        let r = self.advance_world(input, delta_ms);
        let ghost mid = *self;
        let gained = r.0;
        let world_now = r.1;
        let hits = self.resolve_combat(input, delta_ms, gained, world_now);
        proof {
            assert(advance_outcome(pre, *input, delta_g, mid, gained as int, world_now));
            assert(combat_outcome(
                mid,
                *input,
                delta_g,
                gained as int,
                world_now,
                *self,
                hits as int,
            ));
        }
        make_events(gained, hits)
    }

    /// Input, aiming, movement integration, growth, harvest and scoring:
    /// the deterministic first half of a Playing tick. Returns the crop
    /// value harvested and the combine's post-movement world position.
    #[verifier::rlimit(100)]
    fn advance_world(&mut self, input: &InputSample, delta_ms: u32) -> (r: (u32, WorldPos))
        requires
            old(self).wf(),
            old(self).state is Playing,
            delta_ms <= crate::MAX_TICK_MS,
        ensures
            advance_outcome(*old(self), *input, delta_ms as int, *final(self), r.0 as int, r.1),
            final(self).field.wf(),
            final(self).combine.movement.wf(),
            final(self).aim.wf(),
            final(self).field.in_bounds(final(self).combine.position),
            final(self).growth.wf_for(final(self).field.cells@.len() as int),
            forall|i: int|
                0 <= i < final(self).enemies@.len() ==> (#[trigger] final(self).enemies@[i]).wf(),
            forall|i: int|
                0 <= i < final(self).bullets@.len() ==> (#[trigger] final(self).bullets@[i]).wf(),
            r.1.wf(),
            final(self).score.0 == score_of(
                final(self).field.harvested(),
                final(self).field.total(),
            ),
            final(self).score.0 >= old(self).score.0,
            old(self).field.harvested() <= final(self).field.harvested() <= old(
                self,
            ).field.harvested() + 1,
            (r.0 > 0 <==> final(self).field.harvested() == old(self).field.harvested() + 1),
    {
        let ghost width_g = old(self).field.width;
        let ghost height_g = old(self).field.height;
        let ghost delta_g = delta_ms as int;
        let ghost combine1_g = combine_after(old(self).combine, *input, width_g, height_g, delta_g);
        let ghost w0_g = old(self).combine.movement.world_of(old(self).combine.position);
        let ghost w1_g = combine1_g.movement.world_of(combine1_g.position);
        let ghost aim1_g = aim_update(w0_g, clamped_cursor(input.cursor), old(self).aim);
        let ghost cells1_g = if old(self).growth.enabled {
            grown_cells_spec(old(self).field.cells@, old(self).growth.timers@, delta_g)
        } else {
            old(self).field.cells@
        };
        let ghost hv_g = grid_harvest(
            width_g as int,
            height_g as int,
            cells1_g,
            round_to_cell(w1_g.x as int),
            round_to_cell(w1_g.y as int),
        );

        // Input sampling: resolve keys and latch the steering request.
        let asked = asked_direction(input.up, input.down, input.right, input.left);
        self.combine.movement.steer(asked);

        // AI and aiming, on this tick's pre-movement positions.
        let combine_world = self.combine.movement.world_coord(self.combine.position);
        proof {
            assert(combine_world == w0_g);
        }
        crate::enemy::aim(&mut self.enemies, &combine_world);
        let cursor_world = WorldPos {
            x: clamp_coord(input.cursor.x),
            y: clamp_coord(input.cursor.y),
        };
        match crate::turret::aim(&combine_world, &cursor_world) {
            Some(a) => {
                self.aim = a;
            },
            None => {},
        }
        proof {
            assert(self.aim == aim1_g);
        }

        // Movement integration: bounce, then the combine's discrete step,
        // then every free-moving entity.
        self.combine.movement.reverse_in_front_of_barrier(
            self.combine.position,
            self.field.width,
            self.field.height,
        );
        self.combine.movement.update(&mut self.combine.position, delta_ms);
        proof {
            assert(self.combine == combine1_g);
        }
        crate::enemy::integrate(&mut self.enemies, delta_ms);
        proof {
            assert(self.enemies@ =~= Seq::new(
                old(self).enemies@.len(),
                |i: int| moved_enemy(aimed(old(self).enemies@[i], w0_g), delta_g),
            ));
        }
        crate::turret::integrate(&mut self.bullets, delta_ms);
        proof {
            assert(self.bullets@ =~= Seq::new(
                old(self).bullets@.len(),
                |i: int| moved_bullet(old(self).bullets@[i], delta_g),
            ));
        }

        // Crop growth, then the harvest at the new rounded position: a
        // cell harvested this very tick still yields the level it reached.
        grow(&mut self.field, &mut self.growth, delta_ms);
        proof {
            assert(self.field.cells@ == cells1_g);
        }
        let world_now = self.combine.movement.world_coord(self.combine.position);
        proof {
            assert(world_now == w1_g);
        }
        let hx: i64 = round_coord(world_now.x);
        let hy: i64 = round_coord(world_now.y);
        let gained: u32 = self.field.harvest(Position { x: hx as i32, y: hy as i32 });
        proof {
            assert(self.field.cells@ == hv_g.0);
            assert(gained as int == hv_g.1);
        }
        if gained > 0 {
            self.update_score();
        }
        proof {
            crate::field::lemma_total_bounds(self.field);
            crate::field::lemma_count_harvested_bounds(old(self).field.cells@);
            crate::field::lemma_count_harvested_bounds(self.field.cells@);
            lemma_score_monotone(
                old(self).field.harvested(),
                self.field.harvested(),
                self.field.total(),
            );
        }
        (gained, world_now)
    }

    /// The ammo economy, the shot and its volley, all-pairs collision,
    /// item pickup, the spawn draw, player-hit detection, the phase
    /// transition and the despawn sweeps: the second half of a Playing
    /// tick, on the post-movement positions. Returns the player contacts.
    #[verifier::rlimit(100)]
    fn resolve_combat(&mut self, input: &InputSample, delta_ms: u32, gained: u32, world_now: WorldPos) -> (hits: usize)
        requires
            delta_ms <= crate::MAX_TICK_MS,
            world_now.wf(),
            old(self).state is Playing,
            old(self).field.wf(),
            old(self).turret.wf(),
            old(self).ammo.wf(),
            old(self).aim.wf(),
            old(self).spawn_timer.0.wf(),
            old(self).spawn_timer.0.repeating,
            forall|i: int| 0 <= i < old(self).enemies@.len() ==> (#[trigger] old(self).enemies@[i]).wf(),
            forall|i: int| 0 <= i < old(self).bullets@.len() ==> (#[trigger] old(self).bullets@[i]).wf(),
            forall|i: int| 0 <= i < old(self).items@.len() ==> (#[trigger] old(self).items@[i]).wf(),
        ensures
            combat_outcome(
                *old(self),
                *input,
                delta_ms as int,
                gained as int,
                world_now,
                *final(self),
                hits as int,
            ),
            final(self).turret.wf(),
            final(self).ammo.wf(),
            final(self).spawn_timer.0.wf(),
            final(self).spawn_timer.0.repeating,
            forall|i: int|
                0 <= i < final(self).enemies@.len() ==> (#[trigger] final(self).enemies@[i]).wf(),
            forall|i: int|
                0 <= i < final(self).bullets@.len() ==> (#[trigger] final(self).bullets@[i]).wf(),
            forall|i: int|
                0 <= i < final(self).items@.len() ==> (#[trigger] final(self).items@[i]).wf(),
            (final(self).state is GameOver <==> hits > 0),
            (final(self).state is Playing <==> hits == 0),
    {
        let ghost delta_g = delta_ms as int;
        let ghost ammo1_g = co_ammo1(*old(self), gained as int);
        let ghost fired_g = co_fired(*old(self), *input, delta_g, gained as int);
        let ghost mode2_g = co_mode2(*old(self), *input, delta_g, gained as int);
        let ghost volley_g = co_volley(*old(self), *input, delta_g, gained as int, world_now);
        let ghost bullets2_g = co_bullets2(*old(self), *input, delta_g, gained as int, world_now);

        self.ammo.reload(gained);
        proof {
            assert(self.ammo.0 == ammo1_g);
        }
        let fired = crate::turret::shoot(&mut self.turret, &mut self.ammo, input.fire, delta_ms);
        proof {
            assert(fired == fired_g);
        }
        if fired {
            let mut volley = crate::turret::fire(&mut self.turret, &world_now, &self.aim);
            proof {
                assert(volley@ =~= volley_g);
            }
            self.bullets.append(&mut volley);
        }
        proof {
            assert(self.turret.mode == mode2_g);
            assert(self.bullets@ =~= bullets2_g);
        }
        let ghost pre_items_len = self.items@.len();
        crate::turret::kill_enemy(&mut self.bullets, &mut self.enemies, &mut self.items);
        let ghost kept_g = co_kept(*old(self), *input, delta_g, gained as int, world_now);
        let ghost drops_g = self.items@.subrange(pre_items_len as int, self.items@.len() as int);
        proof {
            assert(self.enemies@ == kept_g);
            assert(self.items@ =~= old(self).items@ + drops_g);
        }
        crate::turret::collect_item(&world_now, &mut self.items, &mut self.turret);

        // Enemy spawning on its fixed cadence.
        let spawn_due = self.spawn_timer.0.tick(delta_ms);
        if spawn_due {
            let ghost before_spawn = self.enemies@;
            let e = crate::enemy::spawn(self.field.width, self.field.height);
            self.enemies.push(e);
            proof {
                assert forall|i: int|
                    0 <= i < self.enemies@.len() implies (#[trigger] self.enemies@[i]).wf() by {
                    if i < before_spawn.len() {
                        assert(self.enemies@[i] == before_spawn[i]);
                        assert(before_spawn[i].wf());
                    } else {
                        assert(self.enemies@[i] == e);
                    }
                }
            }
        }
        let ghost spawned_g = if spawn_due {
            self.enemies@.subrange(kept_g.len() as int, kept_g.len() as int + 1)
        } else {
            Seq::<Enemy>::empty()
        };
        proof {
            assert(self.enemies@ =~= kept_g + spawned_g);
        }

        // State-machine evaluation: a player hit ends the session.
        let hits = crate::enemy::hit_combine(&world_now, &self.enemies);
        if hits > 0 {
            self.state = GameState::GameOver;
            let ghost before_stop = self.enemies@;
            crate::enemy::stop(&mut self.enemies);
            proof {
                assert forall|i: int|
                    0 <= i < self.enemies@.len() implies (#[trigger] self.enemies@[i]).wf() by {
                    assert(before_stop[i].wf());
                    assert(self.enemies@[i] == (Enemy {
                        pos: before_stop[i].pos,
                        velocity: Velocity { x: 0i64, y: 0i64 },
                    }));
                }
            }
        }

        // Despawn sweep, last, so collision checks never saw a
        // half-destroyed entity.
        sweep_bullets(&mut self.bullets, delta_ms);
        sweep_items(&mut self.items, delta_ms);

        proof {
            assert(spawn_outcome(
                old(self).field.width,
                old(self).field.height,
                old(self).spawn_timer.0,
                delta_g,
                world_now,
                kept_g,
                self.enemies@,
                hits as int,
                spawned_g,
            ));
            assert(drop_outcome(
                world_now,
                old(self).enemies@,
                bullets2_g,
                old(self).enemies@.len() - kept_g.len(),
                old(self).items@,
                mode2_g,
                delta_g,
                self.items@,
                self.turret.mode,
                drops_g,
            ));
            assert(self.ammo.0 == (if fired_g {
                ammo1_g - 1
            } else {
                ammo1_g
            }));
            assert(self.turret.cool_down == (if fired_g {
                fresh_cool_down()
            } else {
                old(self).turret.cool_down.ticked(delta_g)
            }));
            assert(self.bullets@ == swept_bullets(
                surviving_bullets(bullets2_g, old(self).enemies@),
                delta_g,
            ));
            assert(self.spawn_timer.0.duration_ms == old(self).spawn_timer.0.duration_ms);
            assert(self.spawn_timer.0.elapsed_ms == (old(self).spawn_timer.0.elapsed_ms + delta_g)
                % (old(self).spawn_timer.0.duration_ms as int));
            assert(self.state == (if hits > 0 {
                GameState::GameOver
            } else {
                old(self).state
            }));
            assert(self.field == old(self).field);
            assert(self.score == old(self).score);
            assert(self.aim == old(self).aim);
            assert(self.combine == old(self).combine);
            assert(self.growth == old(self).growth);
            assert(self.samples == old(self).samples);
            assert(exists|spawned: Seq<Enemy>|
                #[trigger] spawn_outcome(
                    old(self).field.width,
                    old(self).field.height,
                    old(self).spawn_timer.0,
                    delta_g,
                    world_now,
                    kept_g,
                    self.enemies@,
                    hits as int,
                    spawned,
                ));
            assert(exists|drops: Seq<Item>|
                #[trigger] drop_outcome(
                    world_now,
                    old(self).enemies@,
                    bullets2_g,
                    old(self).enemies@.len() - kept_g.len(),
                    old(self).items@,
                    mode2_g,
                    delta_g,
                    self.items@,
                    self.turret.mode,
                    drops,
                ));
            assert(combat_outcome(
                *old(self),
                *input,
                delta_g,
                gained as int,
                world_now,
                *self,
                hits as int,
            ));
        }

        hits
    }
}

/// Package a tick's outcomes as plain value events: one `Harvested` per
/// harvested crop value unit and one `PlayerHit` per contact.
fn make_events(harvest_units: u32, hits: usize) -> (ev: TickEvents)
    ensures
        ev.harvested@.len() == harvest_units,
        ev.player_hits@.len() == hits,
{
    let mut harvested: Vec<Harvested> = Vec::new();
    let mut i: u32 = 0;
    while i < harvest_units
        invariant
            i <= harvest_units,
            harvested@.len() == i,
        decreases harvest_units - i,
    {
        harvested.push(Harvested);
        i = i + 1;
    }
    let mut player_hits: Vec<PlayerHit> = Vec::new();
    let mut j: usize = 0;
    while j < hits
        invariant
            j <= hits,
            player_hits@.len() == j,
        decreases hits - j,
    {
        player_hits.push(PlayerHit);
        j = j + 1;
    }
    TickEvents { harvested, player_hits }
}

} // verus!
