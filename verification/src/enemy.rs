//! Homing enemies: perimeter spawn, continuous re-aim toward the combine,
//! and player-hit detection.

use vstd::prelude::*;

verus! {

use vstd::pervasive::VecAdditionalExecFns;

use crate::clock::Clock;
use crate::field::{MAX_FIELD_SIDE, Position};
use crate::movement::{Velocity, WorldPos};
use crate::numeric::dir_component;
use crate::numeric::scaled_dir;
use crate::rng::random_u32;

/// Enemy speed, in fixed-point units per second (3 cells a second).
pub const ENEMY_SPEED: i64 = 3_000;

/// Interval between enemy spawns, in ms.
pub const SPAWN_PERIOD_MS: u32 = 500;

/// Squared-distance threshold below which an enemy touches the combine
/// (0.1 square cells, in squared fixed-point units).
pub const PLAYER_HIT_DIST_SQ: i64 = 100_000;

/// One-shot event: an enemy reached the player.
#[derive(Debug, Clone, Copy, PartialEq, Eq, Structural)]
pub struct PlayerHit;

/// A homing enemy: a free world position and its current velocity.
#[derive(Debug, Clone, Copy, PartialEq, Eq, Structural)]
pub struct Enemy {
    pub pos: WorldPos,
    pub velocity: Velocity,
}

impl Enemy {
    pub open spec fn wf(self) -> bool {
        &&& self.pos.wf()
        &&& self.velocity.wf()
    }
}

/// The fixed-cadence clock that paces enemy spawns.
#[derive(Debug, Clone, Copy, PartialEq, Eq, Structural)]
pub struct SpawnTimer(pub Clock);

impl Default for SpawnTimer {
    fn default() -> (t: SpawnTimer)
        ensures
            t.0.wf(),
            t.0.repeating,
            t.0.duration_ms == SPAWN_PERIOD_MS,
            t.0.elapsed_ms == 0,
    {
        SpawnTimer(Clock::new(SPAWN_PERIOD_MS, true))
    }
}

/// Positions one cell outside the field bounds, along one of the four
/// edges and within the field's span on the other axis: where enemies
/// appear.
pub open spec fn on_spawn_perimeter(p: Position, width: u32, height: u32) -> bool {
    ||| ((p.x == -1 || p.x == width) && 0 <= p.y < height)
    ||| ((p.y == -1 || p.y == height) && 0 <= p.x < width)
}

/// The spawn position two uniform draws select: the first picks one of the
/// four edges, the second the coordinate along it.
pub open spec fn spawn_position_spec(edge_roll: int, coord_roll: int, width: int, height: int) -> Position {
    if edge_roll % 4 == 0 {
        Position { x: -1 as i32, y: (coord_roll % height) as i32 }
    } else if edge_roll % 4 == 1 {
        Position { x: width as i32, y: (coord_roll % height) as i32 }
    } else if edge_roll % 4 == 2 {
        Position { x: (coord_roll % width) as i32, y: -1 as i32 }
    } else {
        Position { x: (coord_roll % width) as i32, y: height as i32 }
    }
}

/// Resolve two uniform draws to a spawn position on the field's outer
/// perimeter.
pub fn spawn_position(edge_roll: u32, coord_roll: u32, width: u32, height: u32) -> (p: Position)
    requires
        2 <= width <= MAX_FIELD_SIDE,
        2 <= height <= MAX_FIELD_SIDE,
    ensures
        p == spawn_position_spec(edge_roll as int, coord_roll as int, width as int, height as int),
        on_spawn_perimeter(p, width, height),
{
    match edge_roll % 4 {
        0 => Position { x: -1, y: (coord_roll % height) as i32 },
        1 => Position { x: width as i32, y: (coord_roll % height) as i32 },
        2 => Position { x: (coord_roll % width) as i32, y: -1 },
        _ => Position { x: (coord_roll % width) as i32, y: height as i32 },
    }
}

/// An enemy's world position projects a grid position: each coordinate is
/// the grid coordinate in fixed-point units.
pub open spec fn spawned_at(e: Enemy, p: Position) -> bool {
    &&& e.pos.x == p.x * 1000
    &&& e.pos.y == p.y * 1000
}

/// Spawn one enemy at a randomly drawn perimeter position, initially at
/// rest. Whatever the draws, the enemy stands on the field's outer
/// perimeter.
pub fn spawn(width: u32, height: u32) -> (e: Enemy)
    requires
        2 <= width <= MAX_FIELD_SIDE,
        2 <= height <= MAX_FIELD_SIDE,
    ensures
        e.wf(),
        e.velocity.x == 0 && e.velocity.y == 0,
        exists|p: Position| #[trigger] spawned_at(e, p) && on_spawn_perimeter(p, width, height),
{
    let p = spawn_position(random_u32(), random_u32(), width, height);
    let e = Enemy {
        pos: WorldPos { x: p.x as i64 * 1000, y: p.y as i64 * 1000 },
        velocity: Velocity::zero(),
    };
    proof {
        assert(spawned_at(e, p));
    }
    e
}

/// The enemy after one re-aim toward the combine: velocity points at the
/// combine's position at the fixed enemy speed; a degenerate (zero-length)
/// separation leaves the enemy as it was.
pub open spec fn aimed(e: Enemy, combine_pos: WorldPos) -> Enemy {
    let dx = combine_pos.x - e.pos.x;
    let dy = combine_pos.y - e.pos.y;
    if dx == 0 && dy == 0 {
        e
    } else {
        Enemy {
            pos: e.pos,
            velocity: Velocity {
                x: dir_component(dx, (dx * dx + dy * dy) as nat, ENEMY_SPEED as int) as i64,
                y: dir_component(dy, (dx * dx + dy * dy) as nat, ENEMY_SPEED as int) as i64,
            },
        }
    }
}

/// Re-aim every enemy toward the combine's current world position: a
/// continuous steer, not a planned path.
pub fn aim(enemies: &mut Vec<Enemy>, combine_pos: &WorldPos)
    requires
        combine_pos.wf(),
        forall|i: int| 0 <= i < old(enemies)@.len() ==> (#[trigger] old(enemies)@[i]).wf(),
    ensures
        final(enemies)@.len() == old(enemies)@.len(),
        forall|i: int|
            0 <= i < old(enemies)@.len() ==> final(enemies)@[i] == aimed(
                #[trigger] old(enemies)@[i],
                *combine_pos,
            ),
        forall|i: int| 0 <= i < final(enemies)@.len() ==> (#[trigger] final(enemies)@[i]).wf(),
{
    let len: usize = enemies.len();
    let mut i: usize = 0;
    while i < len
        invariant
            i <= len,
            len == enemies@.len(),
            enemies@.len() == old(enemies)@.len(),
            combine_pos.wf(),
            forall|j: int| 0 <= j < len ==> (#[trigger] old(enemies)@[j]).wf(),
            forall|j: int|
                0 <= j < i ==> enemies@[j] == aimed(#[trigger] old(enemies)@[j], *combine_pos),
            forall|j: int| i <= j < len ==> enemies@[j] == #[trigger] old(enemies)@[j],
            forall|j: int| 0 <= j < i ==> (#[trigger] enemies@[j]).wf(),
        decreases len - i,
    {
        proof {
            assert(enemies@[i as int] == old(enemies)@[i as int]);
            assert(old(enemies)@[i as int].wf());
        }
        let e = enemies[i];
        let dx: i64 = combine_pos.x - e.pos.x;
        let dy: i64 = combine_pos.y - e.pos.y;
        match scaled_dir(dx, dy, ENEMY_SPEED) {
            Some(v) => {
                enemies.set(i, Enemy { pos: e.pos, velocity: Velocity { x: v.0, y: v.1 } });
            },
            None => {},
        }
        i = i + 1;
    }
}

/// An enemy after straight-line motion for the elapsed time.
pub open spec fn moved_enemy(e: Enemy, delta_ms: int) -> Enemy {
    Enemy {
        pos: WorldPos {
            x: crate::movement::moved_coord(e.pos.x as int, e.velocity.x as int, delta_ms) as i64,
            y: crate::movement::moved_coord(e.pos.y as int, e.velocity.y as int, delta_ms) as i64,
        },
        velocity: e.velocity,
    }
}

/// Advance every enemy along its velocity for the elapsed time.
pub fn integrate(enemies: &mut Vec<Enemy>, delta_ms: u32)
    requires
        delta_ms <= crate::MAX_TICK_MS,
        forall|i: int| 0 <= i < old(enemies)@.len() ==> (#[trigger] old(enemies)@[i]).wf(),
    ensures
        final(enemies)@.len() == old(enemies)@.len(),
        forall|i: int|
            0 <= i < old(enemies)@.len() ==> final(enemies)@[i] == moved_enemy(
                #[trigger] old(enemies)@[i],
                delta_ms as int,
            ),
        forall|i: int| 0 <= i < final(enemies)@.len() ==> (#[trigger] final(enemies)@[i]).wf(),
{
    let len: usize = enemies.len();
    let mut i: usize = 0;
    while i < len
        invariant
            i <= len,
            len == enemies@.len(),
            enemies@.len() == old(enemies)@.len(),
            delta_ms <= crate::MAX_TICK_MS,
            forall|j: int| 0 <= j < len ==> (#[trigger] old(enemies)@[j]).wf(),
            forall|j: int|
                0 <= j < i ==> enemies@[j] == moved_enemy(
                    #[trigger] old(enemies)@[j],
                    delta_ms as int,
                ),
            forall|j: int| i <= j < len ==> enemies@[j] == #[trigger] old(enemies)@[j],
            forall|j: int| 0 <= j < i ==> (#[trigger] enemies@[j]).wf(),
        decreases len - i,
    {
        proof {
            assert(enemies@[i as int] == old(enemies)@[i as int]);
            assert(old(enemies)@[i as int].wf());
        }
        let e = enemies[i];
        let mut p = e.pos;
        crate::movement::movement(&mut p, &e.velocity, delta_ms);
        enemies.set(i, Enemy { pos: p, velocity: e.velocity });
        i = i + 1;
    }
}

/// Whether an enemy is within touching distance of the combine.
pub open spec fn touches_combine(combine_pos: WorldPos, e: Enemy) -> bool {
    (combine_pos.x - e.pos.x) * (combine_pos.x - e.pos.x) + (combine_pos.y - e.pos.y) * (
    combine_pos.y - e.pos.y) < PLAYER_HIT_DIST_SQ
}

/// Number of enemies within touching distance of the combine.
pub open spec fn count_touching(combine_pos: WorldPos, s: Seq<Enemy>) -> int
    decreases s.len(),
{
    if s.len() == 0 {
        0
    } else {
        count_touching(combine_pos, s.drop_last()) + if touches_combine(combine_pos, s.last()) {
            1int
        } else {
            0int
        }
    }
}

/// One `PlayerHit`-equivalent per enemy within the squared-distance
/// threshold of the combine, exactly once per qualifying pair this tick;
/// coalescing duplicates is the consumer's concern.
pub fn hit_combine(combine_pos: &WorldPos, enemies: &Vec<Enemy>) -> (hits: usize)
    requires
        combine_pos.wf(),
        forall|i: int| 0 <= i < enemies@.len() ==> (#[trigger] enemies@[i]).wf(),
    ensures
        hits == count_touching(*combine_pos, enemies@),
{
    let len: usize = enemies.len();
    let mut hits: usize = 0;
    let mut i: usize = 0;
    while i < len
        invariant
            i <= len,
            len == enemies@.len(),
            combine_pos.wf(),
            forall|j: int| 0 <= j < len ==> (#[trigger] enemies@[j]).wf(),
            hits == count_touching(*combine_pos, enemies@.take(i as int)),
            hits <= i,
        decreases len - i,
    {
        proof {
            assert(enemies@.take(i as int + 1).drop_last() =~= enemies@.take(i as int));
            assert(enemies@.take(i as int + 1).last() == enemies@[i as int]);
        }
        let e = enemies[i];
        let d = crate::numeric::dist_sq(combine_pos.x, combine_pos.y, e.pos.x, e.pos.y);
        if d < PLAYER_HIT_DIST_SQ {
            hits = hits + 1;
        }
        i = i + 1;
    }
    proof {
        assert(enemies@.take(len as int) =~= enemies@);
    }
    hits
}

/// A row of enemies brought to rest: positions kept, velocities zero.
pub open spec fn frozen_enemies(s: Seq<Enemy>) -> Seq<Enemy> {
    Seq::new(s.len(), |i: int| Enemy { pos: s[i].pos, velocity: Velocity { x: 0i64, y: 0i64 } })
}

/// Freeze every enemy: velocities drop to zero when the session ends.
pub fn stop(enemies: &mut Vec<Enemy>)
    ensures
        final(enemies)@ == frozen_enemies(old(enemies)@),
        final(enemies)@.len() == old(enemies)@.len(),
        forall|i: int|
            0 <= i < old(enemies)@.len() ==> final(enemies)@[i] == (Enemy {
                pos: (#[trigger] old(enemies)@[i]).pos,
                velocity: Velocity { x: 0i64, y: 0i64 },
            }),
{
    let len: usize = enemies.len();
    let mut i: usize = 0;
    while i < len
        invariant
            i <= len,
            len == enemies@.len(),
            enemies@.len() == old(enemies)@.len(),
            forall|j: int|
                0 <= j < i ==> enemies@[j] == (Enemy {
                    pos: (#[trigger] old(enemies)@[j]).pos,
                    velocity: Velocity { x: 0i64, y: 0i64 },
                }),
            forall|j: int| i <= j < len ==> enemies@[j] == #[trigger] old(enemies)@[j],
        decreases len - i,
    {
        let e = enemies[i];
        enemies.set(i, Enemy { pos: e.pos, velocity: Velocity::zero() });
        i = i + 1;
    }
    proof {
        assert(enemies@ =~= frozen_enemies(old(enemies)@));
    }
}

} // verus!
