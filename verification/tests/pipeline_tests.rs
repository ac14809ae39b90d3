//! The fixed stage ordering: the wave-field driver and the resolver
//! schedule.

use resonance::effects::{CollisionEvent, EnemyState, Hitstun};
use resonance::geom::Vec2i;
use resonance::interference::InterferenceKind;
use resonance::pipeline::{resolve_tick, wave_field_tick};
use resonance::volume::WaveInterference;
use resonance::wave::{DelayedWave, Wave, WaveKind};

fn wave(kind: WaveKind, radius: i64) -> Wave {
    Wave { kind, radius, max_radius: 400_000, speed: 100 }
}

#[test]
fn wave_field_phase_runs_in_order() {
    // one live wave about to expire, one pair that interferes after this
    // tick's growth, and one deferred wave coming due
    let waves = vec![
        (1u64, Vec2i { x: 0, y: 0 }, wave(WaveKind::Positive, 59_000)),
        (2u64, Vec2i { x: 100_000, y: 0 }, wave(WaveKind::Positive, 59_000)),
        (3u64, Vec2i { x: 5_000_000, y: 0 }, wave(WaveKind::Negative, 399_999)),
    ];
    let delayed = vec![DelayedWave::new(
        wave(WaveKind::Negative, 0),
        Vec2i { x: -3_000_000, y: 0 },
        10,
    )];
    let outcome = wave_field_tick(&waves, &delayed, &vec![], 100, 10);
    // the expiring wave is culled; the due wave joined under the next id
    assert_eq!(outcome.waves.len(), 3);
    assert_eq!(outcome.waves[0].0, 1);
    assert_eq!(outcome.waves[0].2.radius, 60_000);
    assert_eq!(outcome.waves[1].0, 2);
    assert_eq!(outcome.waves[2].0, 100);
    assert_eq!(outcome.waves[2].1, Vec2i { x: -3_000_000, y: 0 });
    assert!(outcome.delayed.is_empty());
    // detection ran on the grown census: radii 60 + 60 at distance 100
    // give two events, materialized under the following ids
    assert_eq!(outcome.events.len(), 2);
    assert_eq!(outcome.volumes.len(), 2);
    assert_eq!(outcome.volumes[0].0, 101);
    assert_eq!(outcome.volumes[1].0, 102);
    assert_eq!(outcome.next_id, 103);
    assert_eq!(
        outcome.volumes[0].1.interference.kind,
        InterferenceKind::Positive
    );
}

#[test]
fn destructive_resolver_shields_same_tick_positive_hits() {
    // the same batch contains the destructive containment and a positive
    // hit: destructive runs first, so the enemy is immune in time
    let mut enemies = vec![EnemyState {
        id: 1,
        hitstun: {
            let mut h = Hitstun::new(1);
            h.tick(5);
            h
        },
        no_effect: false,
        velocity: Vec2i { x: 0, y: 0 },
    }];
    let vols = vec![
        (7u64, WaveInterference {
            kind: InterferenceKind::Destructive,
            direction: Vec2i { x: 0, y: 0 },
            strength: 500,
        }),
        (8u64, WaveInterference {
            kind: InterferenceKind::Positive,
            direction: Vec2i { x: 1000, y: 0 },
            strength: 500,
        }),
    ];
    let collisions = vec![
        CollisionEvent { first: 1, second: 7, started: true },
        CollisionEvent { first: 1, second: 8, started: true },
    ];
    let outcome = resolve_tick(&mut enemies, &vols, &vec![], &vec![], 99, &collisions);
    // the enemy was contained before the positive hit could land
    assert!(outcome.health_events.is_empty());
    assert!(enemies[0].no_effect);
    assert_eq!(enemies[0].velocity, Vec2i { x: 0, y: 0 });
}

#[test]
fn resolver_phase_collects_all_effect_kinds() {
    let mut enemies = vec![EnemyState {
        id: 1,
        hitstun: {
            let mut h = Hitstun::new(1);
            h.tick(5);
            h
        },
        no_effect: false,
        velocity: Vec2i { x: 0, y: 0 },
    }];
    let vols = vec![
        (7u64, WaveInterference {
            kind: InterferenceKind::Positive,
            direction: Vec2i { x: 1000, y: 0 },
            strength: 1000,
        }),
        (8u64, WaveInterference {
            kind: InterferenceKind::Negative,
            direction: Vec2i { x: 0, y: 0 },
            strength: 0,
        }),
    ];
    let hitboxes = vec![(21u64, resonance::effects::EnemyHitbox { damage: 300, once: true })];
    let projectiles = vec![31u64];
    let player = 99u64;
    let collisions = vec![
        CollisionEvent { first: 1, second: 7, started: true },
        CollisionEvent { first: 31, second: 8, started: true },
        CollisionEvent { first: 21, second: 99, started: true },
    ];
    let outcome = resolve_tick(&mut enemies, &vols, &projectiles, &hitboxes, player, &collisions);
    // positive hit first, touch damage after
    assert_eq!(outcome.health_events.len(), 2);
    assert_eq!(outcome.health_events[0].target, 1);
    assert_eq!(outcome.health_events[0].amount, -10_000);
    assert_eq!(outcome.health_events[1].target, 99);
    assert_eq!(outcome.health_events[1].amount, -300);
    assert_eq!(outcome.destroyed_projectiles, vec![31]);
    assert_eq!(outcome.spent_hitboxes, vec![21]);
}
