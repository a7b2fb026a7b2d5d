//! Turret, ammo, bullets, enemies and items.

use harvester::despawn::{sweep_bullets, sweep_items, DespawnTimer};
use harvester::enemy::{self, Enemy};
use harvester::field::Position;
use harvester::movement::{Velocity, WorldPos};
use harvester::turret::{
    self, AimDir, Ammo, Bullet, Item, Turret, TurretMode, BULLET_TTL_MS, ITEM_TTL_MS, MAX_AMMO,
};

fn base_turret(mode: TurretMode) -> Turret {
    let mut t = Turret::default();
    t.mode = mode;
    t
}

#[test]
fn ammo_reload_and_fire() {
    // Five harvested cells, one ammo each; then one shot.
    let mut ammo = Ammo::new();
    for _ in 0..5 {
        ammo.reload(1);
    }
    assert_eq!(ammo.0, 5);
    let mut t = Turret::default();
    let fired = turret::shoot(&mut t, &mut ammo, true, 16);
    assert!(fired);
    assert_eq!(ammo.0, 4);
}

#[test]
fn ammo_never_exceeds_the_cap() {
    let mut ammo = Ammo::new();
    ammo.reload(18);
    assert_eq!(ammo.0, 18);
    ammo.reload(5);
    assert_eq!(ammo.0, MAX_AMMO);
    ammo.reload(1_000_000);
    assert_eq!(ammo.0, MAX_AMMO);
}

#[test]
fn firing_with_zero_ammo_is_refused() {
    let mut t = Turret::default();
    let mut ammo = Ammo::new();
    assert!(!turret::shoot(&mut t, &mut ammo, true, 16));
    assert_eq!(ammo.0, 0);
}

#[test]
fn firing_during_cooldown_is_refused() {
    let mut t = Turret::default();
    let mut ammo = Ammo::new();
    ammo.reload(5);
    assert!(turret::shoot(&mut t, &mut ammo, true, 16));
    // The cooldown has just been reset; too soon to fire again.
    assert!(!turret::shoot(&mut t, &mut ammo, true, 0));
    assert!(!turret::shoot(&mut t, &mut ammo, true, 199));
    // After the full cooldown the next shot goes through.
    assert!(turret::shoot(&mut t, &mut ammo, true, 1));
    assert_eq!(ammo.0, 3);
}

#[test]
fn unpressed_fire_is_refused() {
    let mut t = Turret::default();
    let mut ammo = Ammo::new();
    ammo.reload(5);
    assert!(!turret::shoot(&mut t, &mut ammo, false, 16));
    assert_eq!(ammo.0, 5);
}

#[test]
fn base_volley_flies_along_the_aim() {
    let mut t = base_turret(TurretMode::Base);
    let origin = WorldPos { x: 5000, y: 5000 };
    let aim = AimDir { x: 1000, y: 0 };
    let bullets = turret::fire(&mut t, &origin, &aim);
    assert_eq!(bullets.len(), 1);
    assert_eq!(bullets[0].velocity, Velocity { x: 10_000, y: 0 });
    assert_eq!(bullets[0].pos, WorldPos { x: 5600, y: 5000 });
    assert_eq!(t.mode, TurretMode::Base);
}

#[test]
fn fast_volley_is_twice_as_fast() {
    let mut t = base_turret(TurretMode::Fast);
    let bullets = turret::fire(&mut t, &WorldPos { x: 0, y: 0 }, &AimDir { x: 1000, y: 0 });
    assert_eq!(bullets.len(), 1);
    assert_eq!(bullets[0].velocity, Velocity { x: 20_000, y: 0 });
    assert_eq!(t.mode, TurretMode::Fast);
}

#[test]
fn reverse_volley_fires_backward() {
    let mut t = base_turret(TurretMode::Reverse);
    let bullets = turret::fire(&mut t, &WorldPos { x: 0, y: 0 }, &AimDir { x: 1000, y: 0 });
    assert_eq!(bullets.len(), 1);
    assert_eq!(bullets[0].velocity, Velocity { x: -10_000, y: 0 });
}

#[test]
fn shotgun_and_split_spread() {
    let mut t = base_turret(TurretMode::Shotgun);
    let bullets = turret::fire(&mut t, &WorldPos { x: 0, y: 0 }, &AimDir { x: 1000, y: 0 });
    assert_eq!(bullets.len(), 3);
    assert_eq!(bullets[0].velocity, Velocity { x: 9800, y: -1990 });
    assert_eq!(bullets[1].velocity, Velocity { x: 10_000, y: 0 });
    assert_eq!(bullets[2].velocity, Velocity { x: 9800, y: 1990 });

    let mut t2 = base_turret(TurretMode::Split);
    let bullets2 = turret::fire(&mut t2, &WorldPos { x: 0, y: 0 }, &AimDir { x: 1000, y: 0 });
    assert_eq!(bullets2.len(), 2);
    assert_eq!(bullets2[0].velocity, Velocity { x: 9800, y: -1990 });
    assert_eq!(bullets2[1].velocity, Velocity { x: 9800, y: 1990 });
}

#[test]
fn nuke_fires_thirty_bullets_and_falls_back_to_base() {
    let mut t = base_turret(TurretMode::Nuke);
    let bullets = turret::fire(&mut t, &WorldPos { x: 0, y: 0 }, &AimDir { x: 1000, y: 0 });
    assert_eq!(bullets.len(), 30);
    assert_eq!(t.mode, TurretMode::Base);
    // All bullets share the standard speed, roughly one thousand per axis.
    for b in &bullets {
        assert!(b.velocity.x.abs() <= 10_100);
        assert!(b.velocity.y.abs() <= 10_100);
    }
}

#[test]
fn aiming_normalizes_toward_the_cursor() {
    let turret_pos = WorldPos { x: 1000, y: 1000 };
    let a = turret::aim(&turret_pos, &WorldPos { x: 6000, y: 1000 }).unwrap();
    assert_eq!(a, AimDir { x: 1000, y: 0 });
    // A degenerate (zero-length) separation gives no aim update.
    assert!(turret::aim(&turret_pos, &turret_pos).is_none());
}

#[test]
fn item_mode_weights() {
    assert_eq!(turret::mode_from_roll(0), TurretMode::Base);
    assert_eq!(turret::mode_from_roll(10), TurretMode::Base);
    assert_eq!(turret::mode_from_roll(11), TurretMode::Fast);
    assert_eq!(turret::mode_from_roll(40), TurretMode::Fast);
    assert_eq!(turret::mode_from_roll(41), TurretMode::Shotgun);
    assert_eq!(turret::mode_from_roll(70), TurretMode::Shotgun);
    assert_eq!(turret::mode_from_roll(71), TurretMode::Split);
    assert_eq!(turret::mode_from_roll(89), TurretMode::Split);
    assert_eq!(turret::mode_from_roll(90), TurretMode::Reverse);
    assert_eq!(turret::mode_from_roll(91), TurretMode::Nuke);
    assert_eq!(turret::mode_from_roll(99), TurretMode::Nuke);
}

#[test]
fn a_close_pair_destroys_bullet_and_enemy() {
    let mut bullets = vec![Bullet {
        pos: WorldPos { x: 5000, y: 5000 },
        velocity: Velocity { x: 0, y: 0 },
        expiry: DespawnTimer::new(BULLET_TTL_MS),
    }];
    let mut enemies = vec![Enemy {
        pos: WorldPos { x: 5050, y: 5000 },
        velocity: Velocity { x: 0, y: 0 },
    }];
    let mut items: Vec<Item> = Vec::new();
    let killed = turret::kill_enemy(&mut bullets, &mut enemies, &mut items);
    assert_eq!(killed, 1);
    assert!(bullets.is_empty());
    assert!(enemies.is_empty());
    // An item drop is probabilistic; when one drops it lies where the
    // enemy died.
    assert!(items.len() <= 1);
    if let Some(it) = items.first() {
        assert_eq!(it.pos, WorldPos { x: 5050, y: 5000 });
    }
}

#[test]
fn a_distant_pair_is_untouched() {
    let mut bullets = vec![Bullet {
        pos: WorldPos { x: 0, y: 0 },
        velocity: Velocity { x: 0, y: 0 },
        expiry: DespawnTimer::new(BULLET_TTL_MS),
    }];
    let mut enemies = vec![Enemy {
        pos: WorldPos { x: 10_000, y: 0 },
        velocity: Velocity { x: 0, y: 0 },
    }];
    let mut items: Vec<Item> = Vec::new();
    let killed = turret::kill_enemy(&mut bullets, &mut enemies, &mut items);
    assert_eq!(killed, 0);
    assert_eq!(bullets.len(), 1);
    assert_eq!(enemies.len(), 1);
    assert!(items.is_empty());
}

#[test]
fn touching_an_item_overwrites_the_mode() {
    let combine = WorldPos { x: 2000, y: 2000 };
    let mut items = vec![
        Item {
            pos: WorldPos { x: 2100, y: 2000 },
            mode: TurretMode::Shotgun,
            expiry: DespawnTimer::new(ITEM_TTL_MS),
        },
        Item {
            pos: WorldPos { x: 9000, y: 9000 },
            mode: TurretMode::Nuke,
            expiry: DespawnTimer::new(ITEM_TTL_MS),
        },
    ];
    let mut t = Turret::default();
    turret::collect_item(&combine, &mut items, &mut t);
    assert_eq!(t.mode, TurretMode::Shotgun);
    assert_eq!(items.len(), 1);
    assert_eq!(items[0].mode, TurretMode::Nuke);
}

#[test]
fn the_last_touched_item_wins() {
    let combine = WorldPos { x: 0, y: 0 };
    let mut items = vec![
        Item {
            pos: WorldPos { x: 100, y: 0 },
            mode: TurretMode::Fast,
            expiry: DespawnTimer::new(ITEM_TTL_MS),
        },
        Item {
            pos: WorldPos { x: 0, y: 100 },
            mode: TurretMode::Reverse,
            expiry: DespawnTimer::new(ITEM_TTL_MS),
        },
    ];
    let mut t = Turret::default();
    turret::collect_item(&combine, &mut items, &mut t);
    assert_eq!(t.mode, TurretMode::Reverse);
    assert!(items.is_empty());
}

#[test]
fn bullets_expire_after_their_lifetime() {
    let mut bullets = vec![Bullet {
        pos: WorldPos { x: 0, y: 0 },
        velocity: Velocity { x: 10_000, y: 0 },
        expiry: DespawnTimer::new(BULLET_TTL_MS),
    }];
    sweep_bullets(&mut bullets, 4999);
    assert_eq!(bullets.len(), 1);
    sweep_bullets(&mut bullets, 1);
    assert!(bullets.is_empty());
}

#[test]
fn items_expire_after_their_lifetime() {
    let mut items = vec![Item {
        pos: WorldPos { x: 0, y: 0 },
        mode: TurretMode::Split,
        expiry: DespawnTimer::new(ITEM_TTL_MS),
    }];
    sweep_items(&mut items, ITEM_TTL_MS);
    assert!(items.is_empty());
}

#[test]
fn bullets_move_along_their_velocity() {
    let mut bullets = vec![Bullet {
        pos: WorldPos { x: 1000, y: 2000 },
        velocity: Velocity { x: 10_000, y: -10_000 },
        expiry: DespawnTimer::new(BULLET_TTL_MS),
    }];
    turret::integrate(&mut bullets, 500);
    assert_eq!(bullets[0].pos, WorldPos { x: 6000, y: -3000 });
}

#[test]
fn enemies_home_toward_the_combine() {
    // An enemy freshly spawned just left of the field, the combine at the
    // field center: after one aim pass the heading points at the combine.
    let combine = WorldPos { x: 15_000, y: 7_000 };
    let mut enemies = vec![Enemy {
        pos: WorldPos { x: -1000, y: 7_000 },
        velocity: Velocity { x: 0, y: 0 },
    }];
    enemy::aim(&mut enemies, &combine);
    assert_eq!(enemies[0].velocity, Velocity { x: 3000, y: 0 });

    // Off-axis: the heading keeps the separation's direction.
    let mut others = vec![Enemy {
        pos: WorldPos { x: -1000, y: 0 },
        velocity: Velocity { x: 0, y: 0 },
    }];
    enemy::aim(&mut others, &combine);
    assert_eq!(others[0].velocity, Velocity { x: 2748, y: 1202 });
    // Both components carry the separation's sign and the speed is capped.
    assert!(others[0].velocity.x > 0 && others[0].velocity.y > 0);
    assert!(others[0].velocity.x <= 3000 && others[0].velocity.y <= 3000);
}

#[test]
fn degenerate_separation_skips_the_aim_update() {
    let combine = WorldPos { x: 1000, y: 1000 };
    let mut enemies = vec![Enemy {
        pos: combine,
        velocity: Velocity { x: 7, y: 8 },
    }];
    enemy::aim(&mut enemies, &combine);
    assert_eq!(enemies[0].velocity, Velocity { x: 7, y: 8 });
}

#[test]
fn spawn_positions_lie_on_the_outer_perimeter() {
    assert_eq!(enemy::spawn_position(0, 5, 31, 15), Position { x: -1, y: 5 });
    assert_eq!(enemy::spawn_position(1, 5, 31, 15), Position { x: 31, y: 5 });
    assert_eq!(enemy::spawn_position(2, 40, 31, 15), Position { x: 9, y: -1 });
    assert_eq!(enemy::spawn_position(3, 7, 31, 15), Position { x: 7, y: 15 });
}

#[test]
fn random_spawns_stay_on_the_perimeter() {
    for _ in 0..50 {
        let e = enemy::spawn(31, 15);
        let x = e.pos.x / 1000;
        let y = e.pos.y / 1000;
        let on_x_edge = (e.pos.x == -1000 || e.pos.x == 31_000) && (0..15).contains(&y);
        let on_y_edge = (e.pos.y == -1000 || e.pos.y == 15_000) && (0..31).contains(&x);
        assert!(on_x_edge || on_y_edge);
    }
}

#[test]
fn counting_contacts_with_the_combine() {
    let combine = WorldPos { x: 0, y: 0 };
    let near = Enemy { pos: WorldPos { x: 100, y: 0 }, velocity: Velocity { x: 0, y: 0 } };
    let far = Enemy { pos: WorldPos { x: 5000, y: 0 }, velocity: Velocity { x: 0, y: 0 } };
    let enemies = vec![near, far, near];
    assert_eq!(enemy::hit_combine(&combine, &enemies), 2);
}
