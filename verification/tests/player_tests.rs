//! Player input, movement, velocity averaging, and the emission actions.

use resonance::geom::Vec2i;
use resonance::player::{avg_velocity_update, input_direction_update, player_archetype,
    player_velocity, KeyState, Player, EMITTER_COOLDOWN_MS, WAVE_COOLDOWN_MS};
use resonance::wave::WaveKind;

fn idle() -> KeyState {
    KeyState { pressed: false, just_pressed: false, just_released: false }
}

fn held() -> KeyState {
    KeyState { pressed: true, just_pressed: false, just_released: false }
}

fn tapped() -> KeyState {
    KeyState { pressed: true, just_pressed: true, just_released: false }
}

fn lifted() -> KeyState {
    KeyState { pressed: false, just_pressed: false, just_released: true }
}

#[test]
fn fresh_press_takes_the_axis() {
    let dir = input_direction_update(&Vec2i { x: 0, y: 0 }, tapped(), idle(), idle(), idle());
    assert_eq!(dir, Vec2i { x: -1, y: 0 });
    let dir = input_direction_update(&dir, idle(), tapped(), tapped(), idle());
    assert_eq!(dir, Vec2i { x: 1, y: 1 });
}

#[test]
fn releasing_both_keys_recenters() {
    let dir = input_direction_update(&Vec2i { x: 1, y: -1 }, idle(), idle(), idle(), idle());
    assert_eq!(dir, Vec2i { x: 0, y: 0 });
}

#[test]
fn releasing_one_key_falls_back_to_the_held_one() {
    // right released while left still held: the axis flips back left
    let dir = input_direction_update(&Vec2i { x: 1, y: 0 }, held(), lifted(), idle(), idle());
    assert_eq!(dir, Vec2i { x: -1, y: 0 });
    // down released with nothing held: the axis recenters
    let dir = input_direction_update(&Vec2i { x: 0, y: -1 }, idle(), idle(), idle(), lifted());
    assert_eq!(dir, Vec2i { x: 0, y: 0 });
}

#[test]
fn held_keys_keep_the_axis() {
    let dir = input_direction_update(&Vec2i { x: -1, y: 1 }, held(), idle(), held(), idle());
    assert_eq!(dir, Vec2i { x: -1, y: 1 });
}

#[test]
fn player_velocity_normalizes_diagonals() {
    let straight = player_velocity(&Vec2i { x: 1, y: 0 });
    assert_eq!(straight, Vec2i { x: 200_000, y: 0 });
    let diagonal = player_velocity(&Vec2i { x: 1, y: 1 });
    // 1000 / sqrt(2) -> 707 permille per axis, times 200
    assert_eq!(diagonal, Vec2i { x: 141_400, y: 141_400 });
    let still = player_velocity(&Vec2i { x: 0, y: 0 });
    assert_eq!(still, Vec2i { x: 0, y: 0 });
}

#[test]
fn velocity_average_moves_toward_but_never_past() {
    let avg = Vec2i { x: 0, y: 0 };
    let vel = Vec2i { x: 200_000, y: -100_000 };
    let stepped = avg_velocity_update(&avg, &vel, 1000);
    // half the gap in one second
    assert_eq!(stepped, Vec2i { x: 100_000, y: -50_000 });
    let again = avg_velocity_update(&stepped, &vel, 2000);
    assert_eq!(again, vel);
}

#[test]
fn wave_emission_waits_for_cooldown_and_click() {
    let mut p = Player::new();
    let pos = Vec2i { x: 1000, y: 2000 };
    // cooldown still running
    assert!(p.try_emit_wave(true, pos).is_none());
    p.update_cooldowns(WAVE_COOLDOWN_MS);
    // ready but not clicked
    assert!(p.try_emit_wave(false, pos).is_none());
    let emission = p.try_emit_wave(true, pos).unwrap();
    assert!(matches!(emission.wave.kind, WaveKind::Positive));
    assert_eq!(emission.wave.radius, 0);
    assert_eq!(emission.wave.max_radius, 400_000);
    assert_eq!(emission.wave.speed, 100);
    assert!(matches!(emission.trailing.wave.kind, WaveKind::Negative));
    assert_eq!(emission.trailing.position, pos);
    assert_eq!(emission.trailing.delay_timer.duration_ms, 500);
    // the cooldown starts over
    assert!(p.try_emit_wave(true, pos).is_none());
}

#[test]
fn emitter_burst_delays_by_flight_time() {
    let mut p = Player::new();
    p.update_cooldowns(EMITTER_COOLDOWN_MS);
    let player_pos = Vec2i { x: 0, y: 0 };
    // 1200 units away: the bolt takes one second at 1200 units per second
    let target = Vec2i { x: 1_200_000, y: 0 };
    let burst = p.try_emit_emitter(true, player_pos, target).unwrap();
    assert_eq!(burst.leading.delay_timer.duration_ms, 1000);
    assert_eq!(burst.trailing.delay_timer.duration_ms, 1500);
    assert_eq!(burst.leading.position, target);
    assert_eq!(burst.trailing.position, target);
    assert!(matches!(burst.leading.wave.kind, WaveKind::Positive));
    assert!(matches!(burst.trailing.wave.kind, WaveKind::Negative));
    assert_eq!(burst.bolt_velocity, Vec2i { x: 1_200_000, y: 0 });
    assert_eq!(burst.bolt_lifespan_ms, 1000);
    // the cooldown starts over
    assert!(p.try_emit_emitter(true, player_pos, target).is_none());
}

#[test]
fn emitter_at_point_blank_still_delays_one_millisecond() {
    let mut p = Player::new();
    p.update_cooldowns(EMITTER_COOLDOWN_MS);
    let pos = Vec2i { x: 0, y: 0 };
    let burst = p.try_emit_emitter(true, pos, pos).unwrap();
    assert_eq!(burst.leading.delay_timer.duration_ms, 1);
    assert_eq!(burst.bolt_velocity, Vec2i { x: 0, y: 0 });
}

#[test]
fn player_stat_block() {
    let archetype = player_archetype();
    assert_eq!(archetype.health.max, 100_000);
    assert_eq!(archetype.health.current, 100_000);
    assert_eq!(archetype.health_bar.width, 40_000);
    assert_eq!(archetype.health_bar.fraction, 1000);
    assert_eq!(archetype.size, 40_000);
    assert_eq!(archetype.player.wave_cooldown.duration_ms, 1500);
    assert_eq!(archetype.player.emitter_cooldown.duration_ms, 3000);
}
