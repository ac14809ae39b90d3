//! The effect resolvers: immunity toggling, grace-period gating, projectile
//! destruction, the safety sweep, player damage, and the area band.

use resonance::effects::{area_damage, area_impulse, cleanup_no_effect, destructive_interference,
    enemy_damage, negative_interference, positive_interference, wave_band_contains, BandTarget,
    CollisionEvent, EnemyHitbox, EnemyState, Hitstun, HITSTUN_MS};
use resonance::geom::Vec2i;
use resonance::interference::InterferenceKind;
use resonance::volume::WaveInterference;
use resonance::wave::{Wave, WaveKind};

fn enemy(id: u64) -> EnemyState {
    EnemyState {
        id,
        hitstun: Hitstun::new(1),
        no_effect: false,
        velocity: Vec2i { x: 0, y: 0 },
    }
}

fn ready_enemy(id: u64) -> EnemyState {
    let mut e = enemy(id);
    // run out the spawn hitstun so the enemy can be damaged
    e.hitstun.tick(10);
    e
}

fn volume(id: u64, kind: InterferenceKind, strength: i64) -> (u64, WaveInterference) {
    (id, WaveInterference { kind, direction: Vec2i { x: 1000, y: 0 }, strength })
}

fn started(a: u64, b: u64) -> CollisionEvent {
    CollisionEvent { first: a, second: b, started: true }
}

fn stopped(a: u64, b: u64) -> CollisionEvent {
    CollisionEvent { first: a, second: b, started: false }
}

#[test]
fn immunity_round_trip_leaves_no_marker() {
    let mut enemies = vec![ready_enemy(1)];
    let vols = vec![volume(7, InterferenceKind::Destructive, 500)];
    destructive_interference(&mut enemies, &vols, &vec![started(1, 7)]);
    assert!(enemies[0].no_effect);
    destructive_interference(&mut enemies, &vols, &vec![stopped(1, 7)]);
    assert!(!enemies[0].no_effect);
    assert_eq!(enemies[0], ready_enemy(1));
}

#[test]
fn destructive_marks_regardless_of_pair_order() {
    let mut enemies = vec![ready_enemy(1)];
    let vols = vec![volume(7, InterferenceKind::Destructive, 500)];
    destructive_interference(&mut enemies, &vols, &vec![started(7, 1)]);
    assert!(enemies[0].no_effect);
}

#[test]
fn non_destructive_volume_does_not_mark() {
    let mut enemies = vec![ready_enemy(1)];
    let vols = vec![volume(7, InterferenceKind::Positive, 500)];
    destructive_interference(&mut enemies, &vols, &vec![started(1, 7)]);
    assert!(!enemies[0].no_effect);
}

#[test]
fn cleanup_clears_every_marker() {
    let mut enemies = vec![ready_enemy(1), ready_enemy(2)];
    enemies[0].no_effect = true;
    enemies[1].no_effect = true;
    cleanup_no_effect(&mut enemies);
    assert!(!enemies[0].no_effect);
    assert!(!enemies[1].no_effect);
}

#[test]
fn grace_period_damages_once_but_knocks_back_twice() {
    let mut enemies = vec![ready_enemy(1)];
    let vols = vec![volume(7, InterferenceKind::Positive, 1000)];

    // first contact: damage and knockback
    let health1 = positive_interference(&mut enemies, &vols, &vec![started(1, 7)]);
    assert_eq!(health1.len(), 1);
    assert_eq!(health1[0].target, 1);
    // -10 * (0.5 + 1.0 / 2) hit points
    assert_eq!(health1[0].amount, -10_000);
    // direction (1000, 0) * 50 * (0.5 + 0.5) world units per second
    assert_eq!(enemies[0].velocity, Vec2i { x: 50_000, y: 0 });
    assert!(enemies[0].hitstun.is_set());

    // 100 ms later, still inside the 250 ms window
    enemies[0].hitstun.tick(100);
    enemies[0].velocity = Vec2i { x: 0, y: 0 };
    let health2 = positive_interference(&mut enemies, &vols, &vec![started(1, 7)]);
    assert_eq!(health2.len(), 0);
    assert_eq!(enemies[0].velocity, Vec2i { x: 50_000, y: 0 });

    // once the window has fully elapsed, damage applies again
    enemies[0].hitstun.tick(HITSTUN_MS);
    let health3 = positive_interference(&mut enemies, &vols, &vec![started(1, 7)]);
    assert_eq!(health3.len(), 1);
}

#[test]
fn positive_hit_scales_with_strength() {
    let mut enemies = vec![ready_enemy(1)];
    let vols = vec![volume(7, InterferenceKind::Positive, 0)];
    let health = positive_interference(&mut enemies, &vols, &vec![started(1, 7)]);
    // -10 * (0.5 + 0.0 / 2) hit points
    assert_eq!(health[0].amount, -5000);
    assert_eq!(enemies[0].velocity, Vec2i { x: 25_000, y: 0 });
}

#[test]
fn suppressed_enemy_ignores_positive_volumes() {
    let mut enemies = vec![ready_enemy(1)];
    enemies[0].no_effect = true;
    let vols = vec![volume(7, InterferenceKind::Positive, 1000)];
    let health = positive_interference(&mut enemies, &vols, &vec![started(1, 7)]);
    assert_eq!(health.len(), 0);
    assert_eq!(enemies[0].velocity, Vec2i { x: 0, y: 0 });
}

#[test]
fn negative_volume_destroys_projectile() {
    let projectiles = vec![11u64, 12u64];
    let vols = vec![volume(7, InterferenceKind::Negative, 500)];
    let despawned = negative_interference(
        &projectiles,
        &vols,
        &vec![started(12, 7), started(7, 11)],
    );
    assert_eq!(despawned, vec![12, 11]);
}

#[test]
fn negative_volume_ignores_stop_events_and_other_kinds() {
    let projectiles = vec![11u64];
    let vols = vec![
        volume(7, InterferenceKind::Negative, 500),
        volume(8, InterferenceKind::Positive, 500),
    ];
    let despawned = negative_interference(
        &projectiles,
        &vols,
        &vec![stopped(11, 7), started(11, 8)],
    );
    assert_eq!(despawned.len(), 0);
}

#[test]
fn enemy_hitbox_damages_player_and_spends_once_hitboxes() {
    let hitboxes = vec![
        (21u64, EnemyHitbox { damage: 10_000, once: false }),
        (22u64, EnemyHitbox { damage: 7000, once: true }),
    ];
    let player = 1u64;
    let (health, despawned) = enemy_damage(
        &hitboxes,
        player,
        &vec![started(21, 1), started(1, 22), started(21, 99)],
    );
    assert_eq!(health.len(), 2);
    assert_eq!(health[0].amount, -10_000);
    assert_eq!(health[1].amount, -7000);
    assert_eq!(despawned, vec![22]);
}

#[test]
fn band_membership_is_exact() {
    let w = Wave { kind: WaveKind::Positive, radius: 100_000, max_radius: 400_000, speed: 100 };
    let origin = Vec2i { x: 0, y: 0 };
    // band half-width: 2 + 30 * (100/400)^2 = 2 + 30 * 0.0625 -> 3.875 units
    // (age 62 permille -> 3860 mu)
    assert!(wave_band_contains(&origin, &w, &Vec2i { x: 100_000, y: 0 }));
    assert!(wave_band_contains(&origin, &w, &Vec2i { x: 103_859, y: 0 }));
    assert!(!wave_band_contains(&origin, &w, &Vec2i { x: 103_860, y: 0 }));
    assert!(wave_band_contains(&origin, &w, &Vec2i { x: 96_141, y: 0 }));
    assert!(!wave_band_contains(&origin, &w, &Vec2i { x: 96_140, y: 0 }));
    assert!(!wave_band_contains(&origin, &w, &Vec2i { x: 0, y: 0 }));
}

#[test]
fn newborn_wave_band_covers_its_center() {
    // radius 0, band 2 units: the center itself is inside
    let w = Wave { kind: WaveKind::Positive, radius: 0, max_radius: 400_000, speed: 100 };
    let origin = Vec2i { x: 0, y: 0 };
    assert!(wave_band_contains(&origin, &w, &origin));
    assert!(!wave_band_contains(&origin, &w, &Vec2i { x: 2000, y: 0 }));
}

#[test]
fn area_damage_hits_unsuppressed_targets_in_band() {
    let w = Wave { kind: WaveKind::Positive, radius: 100_000, max_radius: 400_000, speed: 100 };
    let origin = Vec2i { x: 0, y: 0 };
    let targets = vec![
        BandTarget { id: 1, position: Vec2i { x: 100_000, y: 0 }, suppressed: false },
        BandTarget { id: 2, position: Vec2i { x: 100_000, y: 0 }, suppressed: true },
        BandTarget { id: 3, position: Vec2i { x: 0, y: 0 }, suppressed: false },
    ];
    let health = area_damage(&origin, &w, &targets, 16);
    assert_eq!(health.len(), 1);
    assert_eq!(health[0].target, 1);
    // 10 hit points per second for 16 ms
    assert_eq!(health[0].amount, -160);
}

#[test]
fn area_impulse_pushes_projectiles_outward() {
    let w = Wave { kind: WaveKind::Negative, radius: 100_000, max_radius: 400_000, speed: 100 };
    let origin = Vec2i { x: 0, y: 0 };
    let targets = vec![
        BandTarget { id: 5, position: Vec2i { x: 100_000, y: 0 }, suppressed: false },
    ];
    let deltas = area_impulse(&origin, &w, &targets, 1000);
    assert_eq!(deltas.len(), 1);
    assert_eq!(deltas[0].0, 5);
    // one full second of 10 world units per second of outward push
    assert_eq!(deltas[0].1, Vec2i { x: 10_000, y: 0 });
}

#[test]
fn hitstun_zero_request_still_opens_window() {
    let h = Hitstun::new(0);
    assert!(h.is_set());
    let mut h2 = h;
    h2.tick(1);
    assert!(!h2.is_set());
}

#[test]
fn hitstun_set_reopens_window() {
    let mut h = Hitstun::new(1);
    h.tick(5);
    assert!(!h.is_set());
    h.set(250);
    assert!(h.is_set());
    h.tick(249);
    assert!(h.is_set());
    h.tick(1);
    assert!(!h.is_set());
}
