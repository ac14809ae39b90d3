//! The player: the keyboard-axis state machine behind movement, the
//! movement velocity, the running average of the player's velocity that
//! shooters lead their aim with, and the two emission actions — a wave pair
//! from the player, and a remote emitter burst at the cursor — each behind
//! its cooldown.

use crate::geom::{bounded, dist_sq, norm_x, norm_y, Vec2i};
use crate::health::{Health, HealthBar};
use crate::num::{div_trunc, div_trunc64, isqrt64, lemma_div_trunc_bound, lemma_sqrt_floor_le,
    sqrt_floor, COORD_LIMIT};
use crate::timer::Timer;
use crate::wave::{DelayedWave, Wave, WaveKind, DT_LIMIT};
use vstd::prelude::*;

verus! {

/// The player's movement speed, in world units per second.
pub const PLAYER_SPEED: i64 = 200;

/// Milliseconds between waves emitted from the player.
pub const WAVE_COOLDOWN_MS: u32 = 1500;

/// Milliseconds between remote emitter bursts.
pub const EMITTER_COOLDOWN_MS: u32 = 3000;

/// Expansion speed of an emitted wave, in world units per second.
pub const WAVE_SPEED: i64 = 100;

/// Radius at which an emitted wave expires, in milliunits.
pub const WAVE_MAX_RADIUS: i64 = 400_000;

/// Delay of the negative wave trailing each positive one, in milliseconds.
pub const WAVE_TRAIL_DELAY_MS: u32 = 500;

/// Speed of the visual bolt flying to a remote emitter, in world units per
/// second; the emitter's delay is the bolt's flight time.
pub const EMITTER_BOLT_SPEED: i64 = 1200;

/// Magnitude bound on a velocity, in milliunits per second.
pub const VELOCITY_LIMIT: i64 = 10_000_000;

/// The player's starting health pool, in milli-hit-points.
pub const PLAYER_MAX_HEALTH: i64 = 100_000;

/// The player's body edge, in milliunits (sprite and collider).
pub const PLAYER_SIZE: i64 = 40_000;

/// The width of the HUD bar over the player and over enemies, in
/// milliunits.
pub const HEALTH_BAR_WIDTH: i64 = 40_000;

/// One key's state this tick, as the input layer reports it.
#[derive(Clone, Copy, Debug, PartialEq, Eq, Structural)]
pub struct KeyState {
    pub pressed: bool,
    pub just_pressed: bool,
    pub just_released: bool,
}

/// One axis of the movement state machine, checked in the order the rules
/// are written: releasing both keys recenters, a fresh press takes the
/// axis, and releasing one key falls back to the other if it is still held.
pub open spec fn axis_update(
    prev: int,
    first: KeyState,
    first_sign: int,
    second: KeyState,
    second_sign: int,
) -> int {
    let a0 = if !first.pressed && !second.pressed {
        0
    } else {
        prev
    };
    let a1 = if first.just_pressed {
        first_sign
    } else {
        a0
    };
    let a2 = if second.just_pressed {
        second_sign
    } else {
        a1
    };
    let a3 = if first.just_released {
        if second.pressed {
            second_sign
        } else {
            0
        }
    } else {
        a2
    };
    if second.just_released {
        if first.pressed {
            first_sign
        } else {
            0
        }
    } else {
        a3
    }
}

/// Advance the held movement direction by one tick of key events. The
/// x axis runs left (-1) before right (+1), the y axis up (+1) before
/// down (-1), matching the order the rules are applied in.
pub fn input_direction_update(
    prev: &Vec2i,
    left: KeyState,
    right: KeyState,
    up: KeyState,
    down: KeyState,
) -> (r: Vec2i)
    requires
        bounded(*prev, 1),
    ensures
        r.x == axis_update(prev.x as int, left, -1, right, 1),
        r.y == axis_update(prev.y as int, up, 1, down, -1),
        bounded(r, 1),
{
    let mut x: i64 = prev.x;
    let mut y: i64 = prev.y;
    if !left.pressed && !right.pressed {
        x = 0;
    }
    if !up.pressed && !down.pressed {
        y = 0;
    }
    if left.just_pressed {
        x = -1;
    }
    if right.just_pressed {
        x = 1;
    }
    if up.just_pressed {
        y = 1;
    }
    if down.just_pressed {
        y = -1;
    }
    if left.just_released {
        x = if right.pressed {
            1
        } else {
            0
        };
    }
    if right.just_released {
        x = if left.pressed {
            -1
        } else {
            0
        };
    }
    if up.just_released {
        y = if down.pressed {
            -1
        } else {
            0
        };
    }
    if down.just_released {
        y = if up.pressed {
            1
        } else {
            0
        };
    }
    Vec2i { x, y }
}

/// X of the movement velocity: the normalized direction scaled to the
/// player speed, in milliunits per second.
pub open spec fn player_velocity_x(dir: Vec2i) -> int {
    norm_x(dir.x * 1000, dir.y * 1000) * PLAYER_SPEED
}

/// Y of the movement velocity; see [`player_velocity_x`].
pub open spec fn player_velocity_y(dir: Vec2i) -> int {
    norm_y(dir.x * 1000, dir.y * 1000) * PLAYER_SPEED
}

/// The velocity the player moves with for a held direction: the direction
/// normalized (a diagonal is no faster than a straight line) and scaled to
/// the player speed.
pub fn player_velocity(dir: &Vec2i) -> (r: Vec2i)
    requires
        bounded(*dir, 1),
    ensures
        r.x == player_velocity_x(*dir),
        r.y == player_velocity_y(*dir),
        bounded(r, 1000 * PLAYER_SPEED as int),
{
    let scaled = Vec2i { x: dir.x * 1000, y: dir.y * 1000 };
    let n = scaled.normalize_permille();
    proof {
        let nx = n.x as int;
        let ny = n.y as int;
        assert(-(1000 * PLAYER_SPEED) <= nx * PLAYER_SPEED <= 1000 * PLAYER_SPEED && -(1000
            * PLAYER_SPEED) <= ny * PLAYER_SPEED <= 1000 * PLAYER_SPEED) by (nonlinear_arith)
            requires
                -1000 <= nx <= 1000,
                -1000 <= ny <= 1000,
        ;
    }
    Vec2i { x: n.x * PLAYER_SPEED, y: n.y * PLAYER_SPEED }
}

/// One step of the running velocity average: the average moves toward the
/// current velocity by the fraction `dt / 2000` and never past it.
pub fn avg_velocity_update(avg: &Vec2i, vel: &Vec2i, dt_ms: u32) -> (r: Vec2i)
    requires
        bounded(*avg, VELOCITY_LIMIT as int),
        bounded(*vel, VELOCITY_LIMIT as int),
        dt_ms <= DT_LIMIT,
    ensures
        r.x == avg.x + div_trunc((vel.x - avg.x) * dt_ms, 2000),
        r.y == avg.y + div_trunc((vel.y - avg.y) * dt_ms, 2000),
        avg.x <= vel.x ==> avg.x <= r.x <= vel.x,
        vel.x <= avg.x ==> vel.x <= r.x <= avg.x,
        avg.y <= vel.y ==> avg.y <= r.y <= vel.y,
        vel.y <= avg.y ==> vel.y <= r.y <= avg.y,
        bounded(r, VELOCITY_LIMIT as int),
{
    proof {
        lemma_avg_step_bound(avg.x as int, vel.x as int, dt_ms as int);
        lemma_avg_step_bound(avg.y as int, vel.y as int, dt_ms as int);
    }
    let dx = div_trunc64((vel.x - avg.x) * (dt_ms as i64), 2000);
    let dy = div_trunc64((vel.y - avg.y) * (dt_ms as i64), 2000);
    Vec2i { x: avg.x + dx, y: avg.y + dy }
}

/// An averaging step never overshoots: the truncated increment carries the
/// sign of the difference and magnitude at most the difference.
proof fn lemma_avg_step_bound(a: int, v: int, dt: int)
    requires
        0 <= dt <= DT_LIMIT,
        -VELOCITY_LIMIT <= a <= VELOCITY_LIMIT,
        -VELOCITY_LIMIT <= v <= VELOCITY_LIMIT,
    ensures
        ({
            let delta = div_trunc((v - a) * dt, 2000);
            (a <= v ==> 0 <= delta <= v - a) && (v <= a ==> v - a <= delta <= 0)
        }),
{
    let diff = v - a;
    if diff >= 0 {
        assert(0 <= diff * dt <= 2000 * diff) by (nonlinear_arith)
            requires
                0 <= diff,
                0 <= dt <= 2000,
        ;
        lemma_div_trunc_bound(diff * dt, 2000, diff);
        vstd::arithmetic::div_mod::lemma_div_pos_is_pos(diff * dt, 2000);
    } else {
        assert(2000 * diff <= diff * dt <= 0 && -(diff * dt) <= 2000 * (-diff)) by (nonlinear_arith)
            requires
                diff < 0,
                0 <= dt <= 2000,
        ;
        lemma_div_trunc_bound(diff * dt, 2000, -diff);
        vstd::arithmetic::div_mod::lemma_div_pos_is_pos(-(diff * dt), 2000);
    }
}

/// The player's two action cooldowns.
#[derive(Clone, Copy, Debug, PartialEq, Eq, Structural)]
pub struct Player {
    pub wave_cooldown: Timer,
    pub emitter_cooldown: Timer,
}

/// A fired wave pair: the positive wave born at the player now, and the
/// negative wave trailing it at the same spot.
#[derive(Clone, Copy, Debug, PartialEq, Eq, Structural)]
pub struct WaveEmission {
    pub wave: Wave,
    pub trailing: DelayedWave,
}

/// A fired emitter burst: a positive then a negative wave pending at the
/// target, and the visual bolt that flies there.
#[derive(Clone, Copy, Debug, PartialEq, Eq, Structural)]
pub struct EmitterBurst {
    pub leading: DelayedWave,
    pub trailing: DelayedWave,
    pub bolt_velocity: Vec2i,
    pub bolt_lifespan_ms: u32,
}

/// The wave payload the player emits: newborn, expiring at
/// `WAVE_MAX_RADIUS`, growing at `WAVE_SPEED`.
pub fn wave_payload(kind: WaveKind) -> (w: Wave)
    ensures
        w == (Wave { kind, radius: 0, max_radius: WAVE_MAX_RADIUS, speed: WAVE_SPEED }),
        w.wf(),
{
    Wave { kind, radius: 0, max_radius: WAVE_MAX_RADIUS, speed: WAVE_SPEED }
}

/// The emitter's flight delay to `target`, in milliseconds: the bolt's
/// travel time at `EMITTER_BOLT_SPEED`, at least one millisecond.
pub open spec fn emitter_delay_ms(player: Vec2i, target: Vec2i) -> int {
    let t = sqrt_floor(dist_sq(player, target)) / (EMITTER_BOLT_SPEED as int);
    if t < 1 {
        1
    } else {
        t
    }
}

impl Player {
    /// A fresh player: both actions start on cooldown.
    pub fn new() -> (r: Player)
        ensures
            r.wave_cooldown == (Timer {
                duration_ms: WAVE_COOLDOWN_MS,
                elapsed_ms: 0,
                repeating: false,
            }),
            r.emitter_cooldown == (Timer {
                duration_ms: EMITTER_COOLDOWN_MS,
                elapsed_ms: 0,
                repeating: false,
            }),
            r.wave_cooldown.wf(),
            r.emitter_cooldown.wf(),
    {
        Player {
            wave_cooldown: Timer::once(WAVE_COOLDOWN_MS),
            emitter_cooldown: Timer::once(EMITTER_COOLDOWN_MS),
        }
    }

    /// Run both cooldown clocks.
    pub fn update_cooldowns(&mut self, dt_ms: u32)
        requires
            old(self).wave_cooldown.wf(),
            old(self).emitter_cooldown.wf(),
            !old(self).wave_cooldown.repeating,
            !old(self).emitter_cooldown.repeating,
            dt_ms <= DT_LIMIT,
        ensures
            final(self).wave_cooldown.wf(),
            final(self).emitter_cooldown.wf(),
            final(self).wave_cooldown.duration_ms == old(self).wave_cooldown.duration_ms,
            final(self).emitter_cooldown.duration_ms == old(self).emitter_cooldown.duration_ms,
            final(self).wave_cooldown.repeating == old(self).wave_cooldown.repeating,
            final(self).emitter_cooldown.repeating == old(self).emitter_cooldown.repeating,
            final(self).wave_cooldown.spec_finished() == (old(self).wave_cooldown.elapsed_ms
                + dt_ms >= old(self).wave_cooldown.duration_ms),
            final(self).emitter_cooldown.spec_finished() == (old(
                self,
            ).emitter_cooldown.elapsed_ms + dt_ms >= old(self).emitter_cooldown.duration_ms),
    {
        self.wave_cooldown.tick(dt_ms);
        self.emitter_cooldown.tick(dt_ms);
    }

    /// Fire a wave pair if the button is held and the cooldown has run out:
    /// a positive wave at the player now, a negative one trailing half a
    /// second behind, and the cooldown starts over. Otherwise nothing
    /// changes.
    pub fn try_emit_wave(&mut self, clicked: bool, position: Vec2i) -> (r: Option<WaveEmission>)
        requires
            old(self).wave_cooldown.wf(),
        ensures
            final(self).emitter_cooldown == old(self).emitter_cooldown,
            final(self).wave_cooldown.wf(),
            (r is Some) == (old(self).wave_cooldown.spec_finished() && clicked),
            r is None ==> *final(self) == *old(self),
            r matches Some(e) ==> {
                &&& final(self).wave_cooldown == (Timer {
                    duration_ms: old(self).wave_cooldown.duration_ms,
                    elapsed_ms: 0,
                    repeating: old(self).wave_cooldown.repeating,
                })
                &&& e.wave == (Wave {
                    kind: WaveKind::Positive,
                    radius: 0,
                    max_radius: WAVE_MAX_RADIUS,
                    speed: WAVE_SPEED,
                })
                &&& e.trailing.wave == (Wave {
                    kind: WaveKind::Negative,
                    radius: 0,
                    max_radius: WAVE_MAX_RADIUS,
                    speed: WAVE_SPEED,
                })
                &&& e.trailing.position == position
                &&& e.trailing.delay_timer == (Timer {
                    duration_ms: WAVE_TRAIL_DELAY_MS,
                    elapsed_ms: 0,
                    repeating: false,
                })
            },
    {
        if !self.wave_cooldown.finished() {
            return None;
        }
        if !clicked {
            return None;
        }
        self.wave_cooldown.reset();
        let wave = wave_payload(WaveKind::Positive);
        let trailing = DelayedWave::new(
            wave_payload(WaveKind::Negative),
            position,
            WAVE_TRAIL_DELAY_MS,
        );
        Some(WaveEmission { wave, trailing })
    }

    /// Fire an emitter burst if the button is held and the cooldown has run
    /// out: a positive wave pending at the target after the bolt's flight
    /// time, a negative wave half a second after it, and the bolt itself;
    /// the cooldown starts over. Otherwise nothing changes.
    pub fn try_emit_emitter(&mut self, clicked: bool, player_pos: Vec2i, target: Vec2i) -> (r:
        Option<EmitterBurst>)
        requires
            old(self).emitter_cooldown.wf(),
            bounded(player_pos, COORD_LIMIT as int),
            bounded(target, COORD_LIMIT as int),
        ensures
            final(self).wave_cooldown == old(self).wave_cooldown,
            final(self).emitter_cooldown.wf(),
            (r is Some) == (old(self).emitter_cooldown.spec_finished() && clicked),
            r is None ==> *final(self) == *old(self),
            r matches Some(e) ==> {
                &&& final(self).emitter_cooldown == (Timer {
                    duration_ms: old(self).emitter_cooldown.duration_ms,
                    elapsed_ms: 0,
                    repeating: old(self).emitter_cooldown.repeating,
                })
                &&& e.leading.wave == (Wave {
                    kind: WaveKind::Positive,
                    radius: 0,
                    max_radius: WAVE_MAX_RADIUS,
                    speed: WAVE_SPEED,
                })
                &&& e.trailing.wave == (Wave {
                    kind: WaveKind::Negative,
                    radius: 0,
                    max_radius: WAVE_MAX_RADIUS,
                    speed: WAVE_SPEED,
                })
                &&& e.leading.position == target
                &&& e.trailing.position == target
                &&& e.leading.delay_timer == (Timer {
                    duration_ms: emitter_delay_ms(player_pos, target) as u32,
                    elapsed_ms: 0,
                    repeating: false,
                })
                &&& e.trailing.delay_timer == (Timer {
                    duration_ms: (WAVE_TRAIL_DELAY_MS + emitter_delay_ms(
                        player_pos,
                        target,
                    )) as u32,
                    elapsed_ms: 0,
                    repeating: false,
                })
                &&& e.bolt_velocity.x == norm_x(
                    target.x - player_pos.x,
                    target.y - player_pos.y,
                ) * EMITTER_BOLT_SPEED
                &&& e.bolt_velocity.y == norm_y(
                    target.x - player_pos.x,
                    target.y - player_pos.y,
                ) * EMITTER_BOLT_SPEED
                &&& e.bolt_lifespan_ms == emitter_delay_ms(player_pos, target)
            },
    {
        if !self.emitter_cooldown.finished() {
            return None;
        }
        if !clicked {
            return None;
        }
        self.emitter_cooldown.reset();
        let d2: i64 = player_pos.dist_sq_to(&target);
        proof {
            assert((4 * COORD_LIMIT) * (4 * COORD_LIMIT) < 0x4000_0000_0000_0000) by (nonlinear_arith);
            assert((d2 as int) <= (4 * COORD_LIMIT) * (4 * COORD_LIMIT)) by (nonlinear_arith)
                requires
                    d2 as int == dist_sq(player_pos, target),
                    dist_sq(player_pos, target) == (target.x - player_pos.x) * (target.x
                        - player_pos.x) + (target.y - player_pos.y) * (target.y - player_pos.y),
                    -2 * COORD_LIMIT <= target.x - player_pos.x <= 2 * COORD_LIMIT,
                    -2 * COORD_LIMIT <= target.y - player_pos.y <= 2 * COORD_LIMIT,
            ;
        }
        let d: i64 = isqrt64(d2 as u64) as i64;
        proof {
            lemma_sqrt_floor_le(d2 as int, 4 * COORD_LIMIT as int);
            vstd::arithmetic::div_mod::lemma_div_pos_is_pos(d as int, EMITTER_BOLT_SPEED as int);
            vstd::arithmetic::div_mod::lemma_div_is_ordered_by_denominator(
                d as int,
                1,
                EMITTER_BOLT_SPEED as int,
            );
            assert(d as int / 1 == d as int);
        }
        let flight: i64 = ((d as u64) / (EMITTER_BOLT_SPEED as u64)) as i64;
        let delay: u32 = if flight < 1 {
            1
        } else {
            flight as u32
        };
        let toward = Vec2i { x: target.x - player_pos.x, y: target.y - player_pos.y };
        let n = toward.normalize_permille();
        proof {
            let nx = n.x as int;
            let ny = n.y as int;
            assert(-(1000 * EMITTER_BOLT_SPEED) <= nx * EMITTER_BOLT_SPEED <= 1000
                * EMITTER_BOLT_SPEED && -(1000 * EMITTER_BOLT_SPEED) <= ny * EMITTER_BOLT_SPEED
                <= 1000 * EMITTER_BOLT_SPEED) by (nonlinear_arith)
                requires
                    -1000 <= nx <= 1000,
                    -1000 <= ny <= 1000,
            ;
        }
        Some(
            EmitterBurst {
                leading: DelayedWave::new(wave_payload(WaveKind::Positive), target, delay),
                trailing: DelayedWave::new(
                    wave_payload(WaveKind::Negative),
                    target,
                    WAVE_TRAIL_DELAY_MS + delay,
                ),
                bolt_velocity: Vec2i {
                    x: n.x * EMITTER_BOLT_SPEED,
                    y: n.y * EMITTER_BOLT_SPEED,
                },
                bolt_lifespan_ms: delay,
            },
        )
    }
}

/// The running average of the player's velocity, in milliunits per second;
/// shooting enemies lead their aim with it.
#[derive(Clone, Copy, Debug, PartialEq, Eq, Structural)]
pub struct AvgPlayerVel(pub Vec2i);

impl AvgPlayerVel {
    /// Fold this tick's velocity into the average; see
    /// [`avg_velocity_update`].
    pub fn update(&mut self, vel: &Vec2i, dt_ms: u32)
        requires
            bounded(old(self).0, VELOCITY_LIMIT as int),
            bounded(*vel, VELOCITY_LIMIT as int),
            dt_ms <= DT_LIMIT,
        ensures
            final(self).0.x == old(self).0.x + div_trunc((vel.x - old(self).0.x) * dt_ms, 2000),
            final(self).0.y == old(self).0.y + div_trunc((vel.y - old(self).0.y) * dt_ms, 2000),
            bounded(final(self).0, VELOCITY_LIMIT as int),
    {
        self.0 = avg_velocity_update(&self.0, vel, dt_ms);
    }
}

/// Everything the host needs to assemble the player: the action cooldowns,
/// the starting health pool, the HUD bar, and the body size.
#[derive(Clone, Copy, Debug, PartialEq, Eq, Structural)]
pub struct PlayerArchetype {
    pub player: Player,
    pub health: Health,
    pub health_bar: HealthBar,
    pub size: i64,
}

/// The player's full starting stat block.
pub fn player_archetype() -> (r: PlayerArchetype)
    ensures
        r.player.wave_cooldown == (Timer {
            duration_ms: WAVE_COOLDOWN_MS,
            elapsed_ms: 0,
            repeating: false,
        }),
        r.player.emitter_cooldown == (Timer {
            duration_ms: EMITTER_COOLDOWN_MS,
            elapsed_ms: 0,
            repeating: false,
        }),
        r.health == (Health { current: PLAYER_MAX_HEALTH, max: PLAYER_MAX_HEALTH }),
        r.health.wf(),
        r.health_bar == (HealthBar { width: HEALTH_BAR_WIDTH, fraction: 1000int as i64 }),
        r.size == PLAYER_SIZE,
{
    PlayerArchetype {
        player: Player::new(),
        health: Health::new(PLAYER_MAX_HEALTH),
        health_bar: HealthBar::new(HEALTH_BAR_WIDTH),
        size: PLAYER_SIZE,
    }
}

} // verus!
