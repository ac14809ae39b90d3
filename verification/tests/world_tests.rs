//! Health pools, the materializer, enemy behavior, lifespans, and the
//! scalar primitives.

use resonance::effects::{EnemyState, Hitstun};
use resonance::enemy::{aim_shot, chase_velocity, enemy_movement_tick, ShootingEnemy};
use resonance::geom::{step_by, Vec2i};
use resonance::health::{apply_health_changes, Health, HealthBar, HealthChangeEvent};
use resonance::interference::{InterferenceKind, WaveInterferenceEvent};
use resonance::num::{div_trunc64, isqrt64};
use resonance::timer::{Lifespan, Timer};
use resonance::volume::{InterferenceVolume, VOLUME_LIFESPAN_MS};

#[test]
fn integer_square_root_is_floor() {
    assert_eq!(isqrt64(0), 0);
    assert_eq!(isqrt64(1), 1);
    assert_eq!(isqrt64(3), 1);
    assert_eq!(isqrt64(4), 2);
    assert_eq!(isqrt64(1_100_000_000), 33_166);
    assert_eq!(isqrt64(999_999_999_999), 999_999);
}

#[test]
fn truncating_division_rounds_toward_zero() {
    assert_eq!(div_trunc64(7, 2), 3);
    assert_eq!(div_trunc64(-7, 2), -3);
    assert_eq!(div_trunc64(0, 5), 0);
    assert_eq!(div_trunc64(-1, 1000), 0);
}

#[test]
fn normalization_gives_permille_directions() {
    let v = Vec2i { x: 3000, y: 4000 };
    assert_eq!(v.normalize_permille(), Vec2i { x: 600, y: 800 });
    let z = Vec2i { x: 0, y: 0 };
    assert_eq!(z.normalize_permille(), z);
    let neg = Vec2i { x: -5000, y: 0 };
    assert_eq!(neg.normalize_permille(), Vec2i { x: -1000, y: 0 });
}

#[test]
fn kinematic_step_scales_velocity_by_tick() {
    let pos = Vec2i { x: 1000, y: -1000 };
    let vel = Vec2i { x: 100_000, y: -50_000 };
    assert_eq!(step_by(&pos, &vel, 16), Vec2i { x: 2600, y: -1800 });
}

#[test]
fn materialized_volume_tracks_strength_and_direction() {
    let event = WaveInterferenceEvent {
        kind: InterferenceKind::Destructive,
        position: Vec2i { x: 50_000, y: 0 },
        direction: Vec2i { x: 0, y: -1000 },
        strength: 978,
    };
    let v = InterferenceVolume::materialize(&event);
    assert_eq!(v.interference.kind, InterferenceKind::Destructive);
    assert_eq!(v.interference.strength, 978);
    // the volume sits two units ahead of the event along the direction
    assert_eq!(v.position, Vec2i { x: 50_000, y: -2000 });
    // 2 units + 30 * (1 - 0.978)
    assert_eq!(v.radius, 2000 + 30 * 22);
    assert_eq!(v.lifespan.timer.duration_ms, VOLUME_LIFESPAN_MS);
}

#[test]
fn volume_radius_widens_as_strength_decays() {
    let mut event = WaveInterferenceEvent {
        kind: InterferenceKind::Positive,
        position: Vec2i { x: 0, y: 0 },
        direction: Vec2i { x: 0, y: 0 },
        strength: 1000,
    };
    let fresh = InterferenceVolume::materialize(&event);
    assert_eq!(fresh.radius, 2000);
    event.strength = 0;
    let decayed = InterferenceVolume::materialize(&event);
    assert_eq!(decayed.radius, 2000 + 15 * 1000);
}

#[test]
fn health_clamps_at_max_and_dies_below_zero() {
    let mut h = Health::new(100_000);
    assert!(!h.apply(50_000));
    assert_eq!(h.current, 100_000);
    assert!(!h.apply(-100_000));
    assert_eq!(h.current, 0);
    assert!(!h.apply(0));
    assert!(h.apply(-1));
    assert_eq!(h.current, -1);
}

#[test]
fn health_percentage_is_permille() {
    let mut h = Health::new(100_000);
    assert_eq!(h.percentage(), 1000);
    h.apply(-25_000);
    assert_eq!(h.percentage(), 750);
    h.apply(-80_000);
    assert_eq!(h.percentage(), 0);
}

#[test]
fn health_bar_tracks_fraction() {
    let mut bar = HealthBar::new(40_000);
    assert_eq!(bar.filled_width(), 40_000);
    assert_eq!(bar.center_offset(), 0);
    bar.update(500);
    assert_eq!(bar.filled_width(), 20_000);
    // width * (fraction - 1) / 2: half the lost width, leftward
    assert_eq!(bar.center_offset(), -10_000);
}

#[test]
fn health_changes_apply_in_order_and_report_deaths() {
    let mut pools = vec![(1u64, Health::new(10_000)), (2u64, Health::new(20_000))];
    let events = vec![
        HealthChangeEvent { target: 1, amount: -4000 },
        HealthChangeEvent { target: 2, amount: 30_000 },
        HealthChangeEvent { target: 1, amount: -7000 },
        HealthChangeEvent { target: 9, amount: -1000 },
    ];
    let deaths = apply_health_changes(&mut pools, &events);
    assert_eq!(pools[0].1.current, -1000);
    // the gain clamps at the maximum
    assert_eq!(pools[1].1.current, 20_000);
    assert_eq!(deaths, vec![1]);
}

#[test]
fn lifespan_expires_exactly_once_elapsed() {
    let mut l = Lifespan::new(50);
    assert!(!l.tick(49));
    assert!(l.tick(1));
}

#[test]
fn chase_velocity_points_at_the_player() {
    let player = Vec2i { x: 100_000, y: 0 };
    let enemy = Vec2i { x: 0, y: 0 };
    assert_eq!(chase_velocity(&player, &enemy, 80), Vec2i { x: 80_000, y: 0 });
    // coincident positions: no movement
    assert_eq!(chase_velocity(&player, &player, 80), Vec2i { x: 0, y: 0 });
}

#[test]
fn aim_leads_a_moving_player() {
    let shooter = Vec2i { x: 0, y: 0 };
    let player = Vec2i { x: 1_000_000, y: 0 };
    // a stationary player is aimed at directly
    let still = aim_shot(&shooter, &player, &Vec2i { x: 0, y: 0 }, 400);
    assert_eq!(still, Vec2i { x: 400_000, y: 0 });
    // flight time 2500 ms; the player drifts 100 units up in that time,
    // so the shot leans upward
    let moving = aim_shot(&shooter, &player, &Vec2i { x: 0, y: 40_000 }, 400);
    assert!(moving.y > 0);
    assert!(moving.x > 0);
}

#[test]
fn shooter_holds_fire_in_hitstun() {
    let mut s = ShootingEnemy {
        timer: Timer::repeating(1000),
        speed: 400,
        lifespan_ms: 5000,
        damage: 7000,
        size: 8000,
    };
    assert!(!s.shoot_tick(false, 500));
    // hitstun freezes the fire clock entirely
    assert!(!s.shoot_tick(true, 5000));
    assert!(s.shoot_tick(false, 500));
    assert_eq!(s.timer.elapsed_ms, 0);
}

#[test]
fn hitstun_gates_are_exact() {
    let mut h = Hitstun::new(250);
    assert!(h.is_set());
    h.tick(250);
    assert!(!h.is_set());
}

#[test]
fn slow_shots_lead_by_their_full_flight_time() {
    // a 4-unit-per-second shot takes 250 s to cross 1000 units; the lead
    // carries the player 10000 units up in that time
    let shooter = Vec2i { x: 0, y: 0 };
    let player = Vec2i { x: 1_000_000, y: 0 };
    let vel = Vec2i { x: 0, y: 40_000 };
    let shot = aim_shot(&shooter, &player, &vel, 4);
    assert_eq!(shot, Vec2i { x: 396, y: 3980 });
}

#[test]
fn movement_holds_during_hitstun_and_chases_after() {
    let mut enemy = EnemyState {
        id: 1,
        hitstun: Hitstun::new(200),
        no_effect: false,
        velocity: Vec2i { x: 7, y: 7 },
    };
    let player = Some(Vec2i { x: 100_000, y: 0 });
    let pos = Vec2i { x: 0, y: 0 };
    // the open window holds the velocity and runs down
    enemy_movement_tick(&mut enemy, &player, &pos, 80, 150);
    assert_eq!(enemy.velocity, Vec2i { x: 7, y: 7 });
    assert!(enemy.hitstun.is_set());
    enemy_movement_tick(&mut enemy, &player, &pos, 80, 50);
    assert!(!enemy.hitstun.is_set());
    // with the window closed, the enemy heads for the player
    enemy_movement_tick(&mut enemy, &player, &pos, 80, 50);
    assert_eq!(enemy.velocity, Vec2i { x: 80_000, y: 0 });
}

#[test]
fn movement_noops_without_a_player() {
    let mut enemy = EnemyState {
        id: 1,
        hitstun: Hitstun::new(200),
        no_effect: false,
        velocity: Vec2i { x: 7, y: 7 },
    };
    let before = enemy;
    enemy_movement_tick(&mut enemy, &None, &Vec2i { x: 0, y: 0 }, 80, 50);
    assert_eq!(enemy, before);
}
