//! The modal turret: aiming, cooldown-gated firing, mode-dependent bullet
//! fans, the ammo economy, enemy kills and item pickups.

use vstd::prelude::*;

verus! {

use vstd::pervasive::VecAdditionalExecFns;

use crate::clock::Clock;
use crate::despawn::DespawnTimer;
use crate::enemy::Enemy;
use crate::movement::{Velocity, WorldPos};
use crate::numeric::{clamp_coord, clamp_spec, dir_component, dist_sq, scaled_dir, tdiv, tdiv_exec};
use crate::rng::random_u32;

/// Most ammo the turret can hold.
pub const MAX_AMMO: u32 = 20;

/// Ammo granted per harvested crop value unit.
pub const AMMO_PER_CROP_CELL: u32 = 1;

/// Cooldown between shots, in ms, independent of weapon mode.
pub const COOL_DOWN_MS: u32 = 200;

/// Bullet time-to-live, in ms.
pub const BULLET_TTL_MS: u32 = 5000;

/// Item time-to-live, in ms.
pub const ITEM_TTL_MS: u32 = 5000;

/// Squared-distance threshold for a bullet hitting an enemy (0.3 square
/// cells, in squared fixed-point units).
pub const BULLET_HIT_DIST_SQ: i64 = 300_000;

/// Squared-distance threshold for the combine picking up an item.
pub const ITEM_PICKUP_DIST_SQ: i64 = 300_000;

/// The bullet-fan pattern and speed the turret fires with.
#[derive(Debug, Clone, Copy, PartialEq, Eq, Structural)]
pub enum TurretMode {
    Base,
    Fast,
    Shotgun,
    Split,
    Reverse,
    Nuke,
}

/// The turret: a cooldown clock and the current weapon mode. It is always
/// co-located with the combine and independently aimed.
#[derive(Debug, Clone, Copy, PartialEq, Eq, Structural)]
pub struct Turret {
    pub cool_down: Clock,
    pub mode: TurretMode,
}

impl Turret {
    pub open spec fn wf(self) -> bool {
        &&& self.cool_down.wf()
        &&& !self.cool_down.repeating
    }
}

impl Default for Turret {
    /// A fresh turret: base mode, cooldown already expired.
    fn default() -> (t: Turret)
        ensures
            t.wf(),
            t.mode == TurretMode::Base,
            t.cool_down.is_finished(),
            t.cool_down == (Clock { elapsed_ms: 0u32, duration_ms: 0u32, repeating: false }),
    {
        Turret { cool_down: Clock::new(0, false), mode: TurretMode::Base }
    }
}

/// The turret's ammo store, capped at `MAX_AMMO`.
#[derive(Debug, Clone, Copy, PartialEq, Eq, Structural)]
pub struct Ammo(pub u32);

/// Ammo after one replenishment: the harvested units are added, capped.
pub open spec fn reloaded(ammo: int, units: int) -> int {
    if ammo + units > MAX_AMMO {
        MAX_AMMO as int
    } else {
        ammo + units
    }
}

/// Ammo after a whole sequence of per-frame harvest replenishments.
pub open spec fn ammo_after(ammo: int, harvests: Seq<int>) -> int
    decreases harvests.len(),
{
    if harvests.len() == 0 {
        ammo
    } else {
        reloaded(ammo_after(ammo, harvests.drop_last()), harvests.last())
    }
}

/// Ammo cap: over every sequence of harvest events, ammo never leaves the
/// range `0 ..= MAX_AMMO`; and a fire, which requires a shot in store,
/// cannot take it below zero.
pub proof fn lemma_ammo_cap(ammo: int, harvests: Seq<int>)
    requires
        0 <= ammo <= MAX_AMMO,
        forall|i: int| 0 <= i < harvests.len() ==> #[trigger] harvests[i] >= 0,
    ensures
        0 <= ammo_after(ammo, harvests) <= MAX_AMMO,
    decreases harvests.len(),
{
    if harvests.len() > 0 {
        lemma_ammo_cap(ammo, harvests.drop_last());
    }
}

impl Ammo {
    pub open spec fn wf(self) -> bool {
        self.0 <= MAX_AMMO
    }

    pub fn new() -> (a: Ammo)
        ensures
            a.wf(),
            a.0 == 0,
    {
        Ammo(0)
    }

    /// Replenish from this frame's aggregated harvest events: one fixed
    /// grant per harvested unit, capped at `MAX_AMMO`. Ammo never
    /// decreases here and never exceeds the cap.
    pub fn reload(&mut self, harvested_units: u32)
        requires
            old(self).wf(),
        ensures
            final(self).wf(),
            final(self).0 == reloaded(old(self).0 as int, (harvested_units * AMMO_PER_CROP_CELL) as int),
            final(self).0 >= old(self).0,
    {
        let delta: u32 = if harvested_units >= MAX_AMMO {
            MAX_AMMO
        } else {
            harvested_units * AMMO_PER_CROP_CELL
        };
        let total: u32 = self.0 + delta;
        self.0 = if total > MAX_AMMO {
            MAX_AMMO
        } else {
            total
        };
    }
}

/// Gate one fire attempt: the cooldown must have run out, the fire input
/// must be held, and a shot must be in store. A successful attempt spends
/// one ammo and restarts the cooldown; a refused one changes nothing but
/// the advancing cooldown. Firing with zero ammo is silently refused.
pub fn shoot(turret: &mut Turret, ammo: &mut Ammo, fire_pressed: bool, delta_ms: u32) -> (fired:
    bool)
    requires
        old(turret).wf(),
        old(ammo).wf(),
        delta_ms <= crate::MAX_TICK_MS,
    ensures
        final(turret).wf(),
        final(ammo).wf(),
        final(turret).mode == old(turret).mode,
        fired == (old(turret).cool_down.elapsed_ms + delta_ms >= old(turret).cool_down.duration_ms
            && fire_pressed && old(ammo).0 > 0),
        fired ==> {
            &&& final(ammo).0 == old(ammo).0 - 1
            &&& final(turret).cool_down == fresh_cool_down()
        },
        !fired ==> {
            &&& final(ammo).0 == old(ammo).0
            &&& final(turret).cool_down == old(turret).cool_down.ticked(delta_ms as int)
        },
{
    let cooled = self::tick_cool_down(&mut turret.cool_down, delta_ms);
    if cooled && fire_pressed && ammo.0 > 0 {
        ammo.0 = ammo.0 - 1;
        turret.cool_down = Clock::new(COOL_DOWN_MS, false);
        true
    } else {
        false
    }
}

/// Advance a one-shot cooldown clock, reporting whether it has fully run
/// out afterwards.
fn tick_cool_down(c: &mut Clock, delta_ms: u32) -> (done: bool)
    requires
        old(c).wf(),
        !old(c).repeating,
        delta_ms <= crate::MAX_TICK_MS,
    ensures
        final(c).wf(),
        !final(c).repeating,
        *final(c) == old(c).ticked(delta_ms as int),
        done == (old(c).elapsed_ms + delta_ms >= old(c).duration_ms),
{
    c.tick(delta_ms);
    c.finished()
}

/// The cooldown clock right after a shot.
pub open spec fn fresh_cool_down() -> Clock {
    Clock { elapsed_ms: 0, duration_ms: COOL_DOWN_MS, repeating: false }
}

/// A turret aim direction: a fixed-point vector of length (about) one cell.
#[derive(Debug, Clone, Copy, PartialEq, Eq, Structural)]
pub struct AimDir {
    pub x: i64,
    pub y: i64,
}

impl AimDir {
    pub open spec fn wf(self) -> bool {
        &&& -1000 <= self.x <= 1000
        &&& -1000 <= self.y <= 1000
    }
}

/// Aim the turret from its position toward the sampled cursor position:
/// the normalized separation, or nothing when that vector is degenerate.
pub fn aim(turret_pos: &WorldPos, cursor: &WorldPos) -> (r: Option<AimDir>)
    requires
        turret_pos.wf(),
        cursor.wf(),
    ensures
        (r is None) <==> (cursor.x == turret_pos.x && cursor.y == turret_pos.y),
        r matches Some(a) ==> {
            let dx = cursor.x - turret_pos.x;
            let dy = cursor.y - turret_pos.y;
            &&& a.x == dir_component(dx, (dx * dx + dy * dy) as nat, 1000)
            &&& a.y == dir_component(dy, (dx * dx + dy * dy) as nat, 1000)
            &&& a.wf()
        },
{
    let dx: i64 = cursor.x - turret_pos.x;
    let dy: i64 = cursor.y - turret_pos.y;
    match scaled_dir(dx, dy, 1000) {
        Some(v) => Some(AimDir { x: v.0, y: v.1 }),
        None => None,
    }
}

/// Number of bullets one shot produces in each mode.
pub open spec fn fan_size(mode: TurretMode) -> int {
    match mode {
        TurretMode::Base => 1,
        TurretMode::Fast => 1,
        TurretMode::Shotgun => 3,
        TurretMode::Split => 2,
        TurretMode::Reverse => 1,
        TurretMode::Nuke => 30,
    }
}

/// Bullet speed in cells per second: doubled in Fast mode.
pub open spec fn speed_factor(mode: TurretMode) -> int {
    match mode {
        TurretMode::Fast => 20,
        _ => 10,
    }
}

/// Rotation coefficients (cosine, sine, in thousandths) of the fan angles
/// of the full-circle Nuke volley: 30 angles evenly spaced over the circle.
pub open spec fn nuke_coeff(i: int) -> (int, int) {
    if i == 0 {
        (-1000, 0)
    } else if i == 1 {
        (-977, -215)
    } else if i == 2 {
        (-908, -420)
    } else if i == 3 {
        (-796, -605)
    } else if i == 4 {
        (-647, -762)
    } else if i == 5 {
        (-468, -884)
    } else if i == 6 {
        (-268, -964)
    } else if i == 7 {
        (-54, -999)
    } else if i == 8 {
        (162, -987)
    } else if i == 9 {
        (370, -929)
    } else if i == 10 {
        (561, -828)
    } else if i == 11 {
        (726, -688)
    } else if i == 12 {
        (857, -516)
    } else if i == 13 {
        (948, -319)
    } else if i == 14 {
        (994, -108)
    } else if i == 15 {
        (994, 108)
    } else if i == 16 {
        (948, 319)
    } else if i == 17 {
        (857, 516)
    } else if i == 18 {
        (726, 688)
    } else if i == 19 {
        (561, 828)
    } else if i == 20 {
        (370, 929)
    } else if i == 21 {
        (162, 987)
    } else if i == 22 {
        (-54, 999)
    } else if i == 23 {
        (-268, 964)
    } else if i == 24 {
        (-468, 884)
    } else if i == 25 {
        (-647, 762)
    } else if i == 26 {
        (-796, 605)
    } else if i == 27 {
        (-908, 420)
    } else if i == 28 {
        (-977, 215)
    } else {
        (-1000, 0)
    }
}

/// Rotation coefficients (cosine, sine, in thousandths) of the `i`-th fan
/// angle of each mode. Shotgun and Split spread evenly over 0.2 radians to
/// each side; Reverse fires exactly backward; Nuke covers the circle.
pub open spec fn fan_coeff(mode: TurretMode, i: int) -> (int, int) {
    match mode {
        TurretMode::Shotgun => if i == 0 {
            (980, -199)
        } else if i == 1 {
            (1000, 0)
        } else {
            (980, 199)
        },
        TurretMode::Split => if i == 0 {
            (980, -199)
        } else {
            (980, 199)
        },
        TurretMode::Reverse => (-1000, 0),
        TurretMode::Nuke => nuke_coeff(i),
        _ => (1000, 0),
    }
}

/// All fan coefficients are bounded by one (in thousandths).
pub proof fn lemma_fan_coeff_bounds(mode: TurretMode, i: int)
    ensures
        -1000 <= fan_coeff(mode, i).0 <= 1000,
        -1000 <= fan_coeff(mode, i).1 <= 1000,
{
}

/// X component of an aim direction rotated by coefficients in thousandths.
pub open spec fn rot_x(a: AimDir, c: int, s: int) -> int {
    tdiv(a.x * c - a.y * s, 1000)
}

/// Y component of an aim direction rotated by coefficients in thousandths.
pub open spec fn rot_y(a: AimDir, c: int, s: int) -> int {
    tdiv(a.x * s + a.y * c, 1000)
}

/// Rotate an aim direction by fixed-point rotation coefficients.
fn rotate(a: &AimDir, c: i64, s: i64) -> (r: (i64, i64))
    requires
        a.wf(),
        -1000 <= c <= 1000,
        -1000 <= s <= 1000,
    ensures
        r.0 == rot_x(*a, c as int, s as int),
        r.1 == rot_y(*a, c as int, s as int),
        -2000 <= r.0 <= 2000,
        -2000 <= r.1 <= 2000,
{
    proof {
        assert(-1_000_000 <= a.x * c <= 1_000_000) by (nonlinear_arith)
            requires
                -1000 <= a.x <= 1000,
                -1000 <= c <= 1000,
        ;
        assert(-1_000_000 <= a.y * s <= 1_000_000) by (nonlinear_arith)
            requires
                -1000 <= a.y <= 1000,
                -1000 <= s <= 1000,
        ;
        assert(-1_000_000 <= a.x * s <= 1_000_000) by (nonlinear_arith)
            requires
                -1000 <= a.x <= 1000,
                -1000 <= s <= 1000,
        ;
        assert(-1_000_000 <= a.y * c <= 1_000_000) by (nonlinear_arith)
            requires
                -1000 <= a.y <= 1000,
                -1000 <= c <= 1000,
        ;
        crate::numeric::lemma_tdiv_quotient_bound(a.x * c - a.y * s, 1000, 2_000_000);
        crate::numeric::lemma_tdiv_quotient_bound(a.x * s + a.y * c, 1000, 2_000_000);
    }
    let rx: i64 = tdiv_exec(a.x * c - a.y * s, 1000);
    let ry: i64 = tdiv_exec(a.x * s + a.y * c, 1000);
    (rx, ry)
}

/// A bullet in flight: straight-line motion until a fixed expiry.
#[derive(Debug, Clone, Copy, PartialEq, Eq, Structural)]
pub struct Bullet {
    pub pos: WorldPos,
    pub velocity: Velocity,
    pub expiry: DespawnTimer,
}

impl Bullet {
    pub open spec fn wf(self) -> bool {
        &&& self.pos.wf()
        &&& self.velocity.wf()
        &&& self.expiry.wf()
    }
}

/// A dropped pickup: touching it overwrites the turret mode.
#[derive(Debug, Clone, Copy, PartialEq, Eq, Structural)]
pub struct Item {
    pub pos: WorldPos,
    pub mode: TurretMode,
    pub expiry: DespawnTimer,
}

impl Item {
    pub open spec fn wf(self) -> bool {
        &&& self.pos.wf()
        &&& self.expiry.wf()
    }
}

/// The `i`-th bullet of a volley fired in the given mode, from the given
/// origin, along the given aim: the aim rotated by the fan angle, moved a
/// fixed muzzle offset out, at the mode's speed, with a fresh expiry.
pub open spec fn volley_bullet(mode: TurretMode, origin: WorldPos, a: AimDir, i: int) -> Bullet {
    let c = fan_coeff(mode, i).0;
    let s = fan_coeff(mode, i).1;
    let rx = rot_x(a, c, s);
    let ry = rot_y(a, c, s);
    Bullet {
        pos: WorldPos {
            x: clamp_spec(origin.x + tdiv(rx * 600, 1000)) as i64,
            y: clamp_spec(origin.y + tdiv(ry * 600, 1000)) as i64,
        },
        velocity: Velocity {
            x: (rx * speed_factor(mode)) as i64,
            y: (ry * speed_factor(mode)) as i64,
        },
        expiry: DespawnTimer(Clock { elapsed_ms: 0, duration_ms: BULLET_TTL_MS, repeating: false }),
    }
}

/// Fire one volley: the mode's whole bullet fan, sharing the turret's aim
/// at fire time. Nuke produces its 30 bullets in this one call and the
/// mode falls back to Base immediately after; every other mode persists.
pub fn fire(turret: &mut Turret, origin: &WorldPos, aim_dir: &AimDir) -> (bullets: Vec<Bullet>)
    requires
        old(turret).wf(),
        origin.wf(),
        aim_dir.wf(),
    ensures
        final(turret).wf(),
        final(turret).cool_down == old(turret).cool_down,
        final(turret).mode == if old(turret).mode is Nuke {
            TurretMode::Base
        } else {
            old(turret).mode
        },
        bullets@.len() == fan_size(old(turret).mode),
        forall|i: int|
            0 <= i < bullets@.len() ==> bullets@[i] == volley_bullet(
                old(turret).mode,
                *origin,
                *aim_dir,
                i,
            ),
        forall|i: int| 0 <= i < bullets@.len() ==> (#[trigger] bullets@[i]).wf(),
{
    let ghost mode = turret.mode;
    let coeffs: Vec<(i64, i64)> = mode_coeffs(turret.mode);
    let factor: i64 = match turret.mode {
        TurretMode::Fast => 20,
        _ => 10,
    };
    let mut bullets: Vec<Bullet> = Vec::new();
    let mut i: usize = 0;
    let len: usize = coeffs.len();
    while i < len
        invariant
            i <= len,
            len == coeffs@.len(),
            coeffs@.len() == fan_size(mode),
            factor == speed_factor(mode),
            aim_dir.wf(),
            origin.wf(),
            forall|j: int|
                0 <= j < len ==> (#[trigger] coeffs@[j]).0 == fan_coeff(mode, j).0 && coeffs@[j].1
                    == fan_coeff(mode, j).1,
            bullets@.len() == i,
            forall|j: int|
                0 <= j < i ==> bullets@[j] == volley_bullet(mode, *origin, *aim_dir, j),
            forall|j: int| 0 <= j < i ==> (#[trigger] bullets@[j]).wf(),
        decreases len - i,
    {
        let (c, s) = coeffs[i];
        proof {
            lemma_fan_coeff_bounds(mode, i as int);
        }
        let (rx, ry) = rotate(aim_dir, c, s);
        proof {
            crate::numeric::lemma_tdiv_quotient_bound(rx * 600, 1000, 1_200_000);
            crate::numeric::lemma_tdiv_quotient_bound(ry * 600, 1000, 1_200_000);
            assert(-1_200_000 <= rx * 600 <= 1_200_000) by (nonlinear_arith)
                requires
                    -2000 <= rx <= 2000,
            ;
            assert(-1_200_000 <= ry * 600 <= 1_200_000) by (nonlinear_arith)
                requires
                    -2000 <= ry <= 2000,
            ;
            assert(-40_000 <= rx * factor <= 40_000) by (nonlinear_arith)
                requires
                    -2000 <= rx <= 2000,
                    0 <= factor <= 20,
            ;
            assert(-40_000 <= ry * factor <= 40_000) by (nonlinear_arith)
                requires
                    -2000 <= ry <= 2000,
                    0 <= factor <= 20,
            ;
        }
        let px: i64 = clamp_coord(origin.x + tdiv_exec(rx * 600, 1000));
        let py: i64 = clamp_coord(origin.y + tdiv_exec(ry * 600, 1000));
        let b = Bullet {
            pos: WorldPos { x: px, y: py },
            velocity: Velocity { x: rx * factor, y: ry * factor },
            expiry: DespawnTimer::new(BULLET_TTL_MS),
        };
        bullets.push(b);
        i = i + 1;
    }
    if matches!(turret.mode, TurretMode::Nuke) {
        turret.mode = TurretMode::Base;
    }
    bullets
}

/// The fan's rotation coefficients for a mode, in volley order.
fn mode_coeffs(mode: TurretMode) -> (cs: Vec<(i64, i64)>)
    ensures
        cs@.len() == fan_size(mode),
        forall|j: int|
            0 <= j < cs@.len() ==> (#[trigger] cs@[j]).0 == fan_coeff(mode, j).0 && cs@[j].1
                == fan_coeff(mode, j).1,
{
    let mut cs: Vec<(i64, i64)> = Vec::new();
    match mode {
        TurretMode::Shotgun => {
            cs.push((980, -199));
            cs.push((1000, 0));
            cs.push((980, 199));
        },
        TurretMode::Split => {
            cs.push((980, -199));
            cs.push((980, 199));
        },
        TurretMode::Reverse => {
            cs.push((-1000, 0));
        },
        TurretMode::Nuke => {
            cs.push((-1000, 0));
            cs.push((-977, -215));
            cs.push((-908, -420));
            cs.push((-796, -605));
            cs.push((-647, -762));
            cs.push((-468, -884));
            cs.push((-268, -964));
            cs.push((-54, -999));
            cs.push((162, -987));
            cs.push((370, -929));
            cs.push((561, -828));
            cs.push((726, -688));
            cs.push((857, -516));
            cs.push((948, -319));
            cs.push((994, -108));
            cs.push((994, 108));
            cs.push((948, 319));
            cs.push((857, 516));
            cs.push((726, 688));
            cs.push((561, 828));
            cs.push((370, 929));
            cs.push((162, 987));
            cs.push((-54, 999));
            cs.push((-268, 964));
            cs.push((-468, 884));
            cs.push((-647, 762));
            cs.push((-796, 605));
            cs.push((-908, 420));
            cs.push((-977, 215));
            cs.push((-1000, 0));
        },
        _ => {
            cs.push((1000, 0));
        },
    }
    cs
}

/// A bullet after straight-line motion for the elapsed time.
pub open spec fn moved_bullet(b: Bullet, delta_ms: int) -> Bullet {
    Bullet {
        pos: WorldPos {
            x: crate::movement::moved_coord(b.pos.x as int, b.velocity.x as int, delta_ms) as i64,
            y: crate::movement::moved_coord(b.pos.y as int, b.velocity.y as int, delta_ms) as i64,
        },
        velocity: b.velocity,
        expiry: b.expiry,
    }
}

/// Advance every bullet along its velocity for the elapsed time.
pub fn integrate(bullets: &mut Vec<Bullet>, delta_ms: u32)
    requires
        delta_ms <= crate::MAX_TICK_MS,
        forall|i: int| 0 <= i < old(bullets)@.len() ==> (#[trigger] old(bullets)@[i]).wf(),
    ensures
        final(bullets)@.len() == old(bullets)@.len(),
        forall|i: int|
            0 <= i < old(bullets)@.len() ==> final(bullets)@[i] == moved_bullet(
                #[trigger] old(bullets)@[i],
                delta_ms as int,
            ),
        forall|i: int| 0 <= i < final(bullets)@.len() ==> (#[trigger] final(bullets)@[i]).wf(),
{
    let len: usize = bullets.len();
    let mut i: usize = 0;
    while i < len
        invariant
            i <= len,
            len == bullets@.len(),
            bullets@.len() == old(bullets)@.len(),
            delta_ms <= crate::MAX_TICK_MS,
            forall|j: int| 0 <= j < len ==> (#[trigger] old(bullets)@[j]).wf(),
            forall|j: int|
                0 <= j < i ==> bullets@[j] == moved_bullet(
                    #[trigger] old(bullets)@[j],
                    delta_ms as int,
                ),
            forall|j: int| i <= j < len ==> bullets@[j] == #[trigger] old(bullets)@[j],
            forall|j: int| 0 <= j < i ==> (#[trigger] bullets@[j]).wf(),
        decreases len - i,
    {
        proof {
            assert(bullets@[i as int] == old(bullets)@[i as int]);
            assert(old(bullets)@[i as int].wf());
        }
        let b = bullets[i];
        let mut p = b.pos;
        crate::movement::movement(&mut p, &b.velocity, delta_ms);
        bullets.set(i, Bullet { pos: p, velocity: b.velocity, expiry: b.expiry });
        i = i + 1;
    }
}

/// Whether a bullet is within killing distance of an enemy.
pub open spec fn bullet_hits_enemy(b: Bullet, e: Enemy) -> bool {
    (b.pos.x - e.pos.x) * (b.pos.x - e.pos.x) + (b.pos.y - e.pos.y) * (b.pos.y - e.pos.y)
        < BULLET_HIT_DIST_SQ
}

/// An enemy survives a volley when no bullet is within killing distance.
pub open spec fn enemy_survives(e: Enemy, bs: Seq<Bullet>) -> bool {
    forall|j: int| 0 <= j < bs.len() ==> !bullet_hits_enemy(#[trigger] bs[j], e)
}

/// A bullet survives when it is within killing distance of no enemy.
pub open spec fn bullet_survives(b: Bullet, es: Seq<Enemy>) -> bool {
    forall|j: int| 0 <= j < es.len() ==> !bullet_hits_enemy(b, #[trigger] es[j])
}

/// The enemies left after all-pairs collision: those no bullet touches.
pub open spec fn surviving_enemies(es: Seq<Enemy>, bs: Seq<Bullet>) -> Seq<Enemy>
    decreases es.len(),
{
    if es.len() == 0 {
        Seq::empty()
    } else {
        let rest = surviving_enemies(es.drop_last(), bs);
        if enemy_survives(es.last(), bs) {
            rest.push(es.last())
        } else {
            rest
        }
    }
}

/// The bullets left after all-pairs collision: those touching no enemy.
pub open spec fn surviving_bullets(bs: Seq<Bullet>, es: Seq<Enemy>) -> Seq<Bullet>
    decreases bs.len(),
{
    if bs.len() == 0 {
        Seq::empty()
    } else {
        let rest = surviving_bullets(bs.drop_last(), es);
        if bullet_survives(bs.last(), es) {
            rest.push(bs.last())
        } else {
            rest
        }
    }
}

/// Survivors are never more numerous than the enemies that entered.
pub proof fn lemma_surviving_enemies_len(es: Seq<Enemy>, bs: Seq<Bullet>)
    ensures
        surviving_enemies(es, bs).len() <= es.len(),
    decreases es.len(),
{
    if es.len() > 0 {
        lemma_surviving_enemies_len(es.drop_last(), bs);
    }
}

/// Whether a bullet is within killing distance of some enemy.
fn hits_some_enemy(b: &Bullet, enemies: &Vec<Enemy>) -> (r: bool)
    requires
        b.wf(),
        forall|i: int| 0 <= i < enemies@.len() ==> (#[trigger] enemies@[i]).wf(),
    ensures
        r == !bullet_survives(*b, enemies@),
{
    let len: usize = enemies.len();
    let mut i: usize = 0;
    while i < len
        invariant
            i <= len,
            len == enemies@.len(),
            b.wf(),
            forall|k: int| 0 <= k < len ==> (#[trigger] enemies@[k]).wf(),
            forall|k: int| 0 <= k < i ==> !bullet_hits_enemy(*b, #[trigger] enemies@[k]),
        decreases len - i,
    {
        let e = enemies[i];
        let d = dist_sq(b.pos.x, b.pos.y, e.pos.x, e.pos.y);
        if d < BULLET_HIT_DIST_SQ {
            return true;
        }
        i = i + 1;
    }
    false
}

/// Whether some bullet is within killing distance of an enemy.
fn hit_by_some_bullet(e: &Enemy, bullets: &Vec<Bullet>) -> (r: bool)
    requires
        e.wf(),
        forall|i: int| 0 <= i < bullets@.len() ==> (#[trigger] bullets@[i]).wf(),
    ensures
        r == !enemy_survives(*e, bullets@),
{
    let len: usize = bullets.len();
    let mut i: usize = 0;
    while i < len
        invariant
            i <= len,
            len == bullets@.len(),
            e.wf(),
            forall|k: int| 0 <= k < len ==> (#[trigger] bullets@[k]).wf(),
            forall|k: int| 0 <= k < i ==> !bullet_hits_enemy(#[trigger] bullets@[k], *e),
        decreases len - i,
    {
        let b = bullets[i];
        let d = dist_sq(b.pos.x, b.pos.y, e.pos.x, e.pos.y);
        if d < BULLET_HIT_DIST_SQ {
            return true;
        }
        i = i + 1;
    }
    false
}

/// The weapon mode a uniform draw over 0..100 selects for a dropped item:
/// weights favor the common modes, Reverse and Nuke stay rare.
pub open spec fn mode_from_roll_spec(roll: int) -> TurretMode {
    if roll <= 10 {
        TurretMode::Base
    } else if roll <= 40 {
        TurretMode::Fast
    } else if roll <= 70 {
        TurretMode::Shotgun
    } else if roll <= 89 {
        TurretMode::Split
    } else if roll <= 90 {
        TurretMode::Reverse
    } else {
        TurretMode::Nuke
    }
}

/// Resolve a uniform draw over 0..100 to the weapon mode of a dropped item.
pub fn mode_from_roll(roll: u32) -> (m: TurretMode)
    requires
        roll < 100,
    ensures
        m == mode_from_roll_spec(roll as int),
{
    if roll <= 10 {
        TurretMode::Base
    } else if roll <= 40 {
        TurretMode::Fast
    } else if roll <= 70 {
        TurretMode::Shotgun
    } else if roll <= 89 {
        TurretMode::Split
    } else if roll <= 90 {
        TurretMode::Reverse
    } else {
        TurretMode::Nuke
    }
}

/// All-pairs bullet-enemy collision, on this tick's positions: every
/// touching pair destroys both its bullet and its enemy; each killed
/// enemy, with fixed one-in-ten probability, drops an item carrying a
/// weighted-random weapon mode at the place it died.
pub fn kill_enemy(bullets: &mut Vec<Bullet>, enemies: &mut Vec<Enemy>, items: &mut Vec<Item>) -> (killed: usize)
    requires
        forall|i: int| 0 <= i < old(bullets)@.len() ==> (#[trigger] old(bullets)@[i]).wf(),
        forall|i: int| 0 <= i < old(enemies)@.len() ==> (#[trigger] old(enemies)@[i]).wf(),
        forall|i: int| 0 <= i < old(items)@.len() ==> (#[trigger] old(items)@[i]).wf(),
    ensures
        final(bullets)@ == surviving_bullets(old(bullets)@, old(enemies)@),
        final(enemies)@ == surviving_enemies(old(enemies)@, old(bullets)@),
        killed == old(enemies)@.len() - final(enemies)@.len(),
        final(items)@.len() >= old(items)@.len(),
        forall|i: int| 0 <= i < old(items)@.len() ==> final(items)@[i] == #[trigger] old(items)@[i],
        forall|i: int|
            old(items)@.len() <= i < final(items)@.len() ==> (#[trigger] final(items)@[i]).wf()
                && final(items)@[i].expiry == (DespawnTimer(
                Clock { elapsed_ms: 0u32, duration_ms: ITEM_TTL_MS, repeating: false },
            )) && (exists|j: int|
                0 <= j < old(enemies)@.len() && !enemy_survives(#[trigger] old(enemies)@[j], old(bullets)@)
                    && final(items)@[i].pos == old(enemies)@[j].pos),
        final(items)@.len() <= old(items)@.len() + killed,
        forall|i: int| 0 <= i < final(bullets)@.len() ==> (#[trigger] final(bullets)@[i]).wf(),
        forall|i: int| 0 <= i < final(enemies)@.len() ==> (#[trigger] final(enemies)@[i]).wf(),
        forall|i: int| 0 <= i < final(items)@.len() ==> (#[trigger] final(items)@[i]).wf(),
{
    let ghost items0 = items@;
    let mut kept_bullets: Vec<Bullet> = Vec::new();
    let blen: usize = bullets.len();
    let mut i: usize = 0;
    while i < blen
        invariant
            i <= blen,
            blen == bullets@.len(),
            bullets@ == old(bullets)@,
            enemies@ == old(enemies)@,
            forall|k: int| 0 <= k < bullets@.len() ==> (#[trigger] bullets@[k]).wf(),
            forall|k: int| 0 <= k < enemies@.len() ==> (#[trigger] enemies@[k]).wf(),
            kept_bullets@ == surviving_bullets(bullets@.take(i as int), enemies@),
            forall|k: int| 0 <= k < kept_bullets@.len() ==> (#[trigger] kept_bullets@[k]).wf(),
        decreases blen - i,
    {
        proof {
            assert(bullets@.take(i as int + 1).drop_last() =~= bullets@.take(i as int));
            assert(bullets@.take(i as int + 1).last() == bullets@[i as int]);
        }
        let b = bullets[i];
        if !hits_some_enemy(&b, enemies) {
            kept_bullets.push(b);
        }
        i = i + 1;
    }
    proof {
        assert(bullets@.take(blen as int) =~= bullets@);
    }

    let mut kept_enemies: Vec<Enemy> = Vec::new();
    let elen: usize = enemies.len();
    let mut killed: usize = 0;
    let mut j: usize = 0;
    while j < elen
        invariant
            j <= elen,
            elen == enemies@.len(),
            bullets@ == old(bullets)@,
            enemies@ == old(enemies)@,
            forall|k: int| 0 <= k < bullets@.len() ==> (#[trigger] bullets@[k]).wf(),
            forall|k: int| 0 <= k < enemies@.len() ==> (#[trigger] enemies@[k]).wf(),
            kept_enemies@ == surviving_enemies(enemies@.take(j as int), bullets@),
            killed == j - kept_enemies@.len(),
            forall|k: int| 0 <= k < kept_enemies@.len() ==> (#[trigger] kept_enemies@[k]).wf(),
            items@.len() >= items0.len(),
            forall|k: int| 0 <= k < items0.len() ==> items@[k] == #[trigger] items0[k],
            forall|k: int|
                items0.len() <= k < items@.len() ==> (#[trigger] items@[k]).wf()
                    && items@[k].expiry == (DespawnTimer(
                    Clock { elapsed_ms: 0u32, duration_ms: ITEM_TTL_MS, repeating: false },
                )) && (exists|m: int|
                    0 <= m < enemies@.len() && !enemy_survives(#[trigger] enemies@[m], bullets@)
                        && items@[k].pos == enemies@[m].pos),
            items@.len() <= items0.len() + killed,
        decreases elen - j,
    {
        proof {
            assert(enemies@.take(j as int + 1).drop_last() =~= enemies@.take(j as int));
            assert(enemies@.take(j as int + 1).last() == enemies@[j as int]);
        }
        let e = enemies[j];
        if hit_by_some_bullet(&e, bullets) {
            killed = killed + 1;
            let drop_roll = random_u32();
            if drop_roll % 10 == 0 {
                let mode = mode_from_roll(random_u32() % 100);
                let it = Item { pos: e.pos, mode, expiry: DespawnTimer::new(ITEM_TTL_MS) };
                proof {
                    assert(!enemy_survives(enemies@[j as int], bullets@));
                }
                items.push(it);
            }
        } else {
            kept_enemies.push(e);
        }
        j = j + 1;
    }
    proof {
        assert(enemies@.take(elen as int) =~= enemies@);
        lemma_surviving_enemies_len(enemies@, bullets@);
    }

    *bullets = kept_bullets;
    *enemies = kept_enemies;
    proof {
        assert forall|i: int| 0 <= i < items@.len() implies (#[trigger] items@[i]).wf() by {
            if i < items0.len() {
                assert(items@[i] == items0[i]);
                assert(old(items)@[i].wf());
            }
        }
    }
    killed
}

/// Whether an item is within pickup distance of the combine.
pub open spec fn item_in_reach(combine_pos: WorldPos, it: Item) -> bool {
    (combine_pos.x - it.pos.x) * (combine_pos.x - it.pos.x) + (combine_pos.y - it.pos.y) * (
    combine_pos.y - it.pos.y) < ITEM_PICKUP_DIST_SQ
}

/// The items left after pickup: those out of the combine's reach.
pub open spec fn remaining_items(s: Seq<Item>, combine_pos: WorldPos) -> Seq<Item>
    decreases s.len(),
{
    if s.len() == 0 {
        Seq::empty()
    } else {
        let rest = remaining_items(s.drop_last(), combine_pos);
        if item_in_reach(combine_pos, s.last()) {
            rest
        } else {
            rest.push(s.last())
        }
    }
}

/// The mode granted by the last item within reach, if any: later pickups
/// in the same tick overwrite earlier ones.
pub open spec fn last_collected_mode(s: Seq<Item>, combine_pos: WorldPos) -> Option<TurretMode>
    decreases s.len(),
{
    if s.len() == 0 {
        None
    } else if item_in_reach(combine_pos, s.last()) {
        Some(s.last().mode)
    } else {
        last_collected_mode(s.drop_last(), combine_pos)
    }
}

/// Collect items under the combine: each item within pickup distance is
/// destroyed and overwrites the turret mode; the last one within reach
/// wins. Everything else is untouched.
pub fn collect_item(combine_pos: &WorldPos, items: &mut Vec<Item>, turret: &mut Turret)
    requires
        combine_pos.wf(),
        old(turret).wf(),
        forall|i: int| 0 <= i < old(items)@.len() ==> (#[trigger] old(items)@[i]).wf(),
    ensures
        final(turret).wf(),
        final(turret).cool_down == old(turret).cool_down,
        final(items)@ == remaining_items(old(items)@, *combine_pos),
        final(turret).mode == match last_collected_mode(old(items)@, *combine_pos) {
            Some(m) => m,
            None => old(turret).mode,
        },
        forall|i: int| 0 <= i < final(items)@.len() ==> (#[trigger] final(items)@[i]).wf(),
{
    let len: usize = items.len();
    let mut kept: Vec<Item> = Vec::new();
    let mut i: usize = 0;
    while i < len
        invariant
            i <= len,
            len == items@.len(),
            items@ == old(items)@,
            combine_pos.wf(),
            turret.cool_down == old(turret).cool_down,
            turret.wf(),
            forall|k: int| 0 <= k < items@.len() ==> (#[trigger] items@[k]).wf(),
            kept@ == remaining_items(items@.take(i as int), *combine_pos),
            turret.mode == match last_collected_mode(items@.take(i as int), *combine_pos) {
                Some(m) => m,
                None => old(turret).mode,
            },
            forall|k: int| 0 <= k < kept@.len() ==> (#[trigger] kept@[k]).wf(),
        decreases len - i,
    {
        proof {
            assert(items@.take(i as int + 1).drop_last() =~= items@.take(i as int));
            assert(items@.take(i as int + 1).last() == items@[i as int]);
        }
        let it = items[i];
        let d = dist_sq(combine_pos.x, combine_pos.y, it.pos.x, it.pos.y);
        if d < ITEM_PICKUP_DIST_SQ {
            turret.mode = it.mode;
        } else {
            kept.push(it);
        }
        i = i + 1;
    }
    proof {
        assert(items@.take(len as int) =~= items@);
    }
    *items = kept;
}

} // verus!
