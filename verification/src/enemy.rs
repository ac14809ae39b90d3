//! Enemy behavior that is pure computation: the chase velocity toward the
//! player, and the lead-aim solution a shooting enemy uses to fire at
//! where the player is heading.

use crate::effects::EnemyState;
use crate::geom::{bounded, dist_sq, norm_x, norm_y, Vec2i};
use crate::num::{div_trunc, div_trunc64, isqrt64, lemma_div_trunc_bound, lemma_sqrt_floor_le,
    sqrt_floor, COORD_LIMIT};
use crate::timer::{Timer, TIME_LIMIT};
use crate::wave::DT_LIMIT;
use vstd::prelude::*;

verus! {

/// Upper bound on an enemy's or projectile's speed, in world units per
/// second.
pub const ENEMY_SPEED_LIMIT: i64 = 2000;

/// Cap on the lead-aim travel time, in milliseconds: longer than any
/// flight across the playable field at the slowest shot speed, and the
/// largest value that keeps the predicted lead inside the derived
/// coordinate range, so the cap never engages for an on-screen shot.
pub const AIM_TIME_CAP_MS: i64 = 490_000;

/// A walking enemy: its chase speed in world units per second.
#[derive(Clone, Copy, Debug, PartialEq, Eq, Structural)]
pub struct Enemy {
    pub speed: i64,
}

/// A shooting enemy: fire period, projectile speed (world units per
/// second), projectile lifespan, touch damage (milli-hit-points) and
/// collider size (milliunits).
#[derive(Clone, Copy, Debug, PartialEq, Eq, Structural)]
pub struct ShootingEnemy {
    pub timer: Timer,
    pub speed: i64,
    pub lifespan_ms: u32,
    pub damage: i64,
    pub size: i64,
}

impl ShootingEnemy {
    /// Advance the fire clock; a shooter in hitstun holds its fire and its
    /// clock. True means a shot leaves this tick (the clock has wrapped).
    pub fn shoot_tick(&mut self, in_hitstun: bool, dt_ms: u32) -> (fire: bool)
        requires
            old(self).timer.wf(),
            old(self).timer.repeating,
            dt_ms <= TIME_LIMIT,
        ensures
            final(self).speed == old(self).speed,
            final(self).lifespan_ms == old(self).lifespan_ms,
            final(self).damage == old(self).damage,
            final(self).size == old(self).size,
            final(self).timer.wf(),
            final(self).timer.duration_ms == old(self).timer.duration_ms,
            final(self).timer.repeating,
            in_hitstun ==> !fire && final(self).timer == old(self).timer,
            !in_hitstun ==> fire == (old(self).timer.elapsed_ms + dt_ms
                >= old(self).timer.duration_ms),
            !in_hitstun && fire ==> final(self).timer.elapsed_ms == 0,
            !in_hitstun && !fire ==> final(self).timer.elapsed_ms == old(self).timer.elapsed_ms
                + dt_ms,
    {
        if in_hitstun {
            return false;
        }
        let fired = self.timer.tick(dt_ms);
        proof {
            if !fired {
                vstd::arithmetic::div_mod::lemma_small_mod(
                    (old(self).timer.elapsed_ms + dt_ms) as nat,
                    old(self).timer.duration_ms as nat,
                );
            }
        }
        if fired {
            self.timer.reset();
        }
        fired
    }
}

/// X of the chase velocity: the permille direction toward the player times
/// the speed, giving milliunits per second.
pub open spec fn chase_x(player: Vec2i, enemy: Vec2i, speed: i64) -> int {
    norm_x(player.x - enemy.x, player.y - enemy.y) * speed
}

/// Y of the chase velocity; see [`chase_x`].
pub open spec fn chase_y(player: Vec2i, enemy: Vec2i, speed: i64) -> int {
    norm_y(player.x - enemy.x, player.y - enemy.y) * speed
}

/// The velocity an enemy chases the player with: straight at the player at
/// its own speed, standing still when the two coincide.
pub fn chase_velocity(player: &Vec2i, enemy: &Vec2i, speed: i64) -> (r: Vec2i)
    requires
        bounded(*player, COORD_LIMIT as int),
        bounded(*enemy, COORD_LIMIT as int),
        0 <= speed <= ENEMY_SPEED_LIMIT,
    ensures
        r.x == chase_x(*player, *enemy, speed),
        r.y == chase_y(*player, *enemy, speed),
        bounded(r, 1000 * ENEMY_SPEED_LIMIT as int),
{
    let toward = Vec2i { x: player.x - enemy.x, y: player.y - enemy.y };
    let n = toward.normalize_permille();
    proof {
        let nx = n.x as int;
        let ny = n.y as int;
        assert(-(1000 * ENEMY_SPEED_LIMIT) <= nx * speed <= 1000 * ENEMY_SPEED_LIMIT && -(1000
            * ENEMY_SPEED_LIMIT) <= ny * speed <= 1000 * ENEMY_SPEED_LIMIT) by (nonlinear_arith)
            requires
                -1000 <= nx <= 1000,
                -1000 <= ny <= 1000,
                0 <= speed <= ENEMY_SPEED_LIMIT,
        ;
    }
    Vec2i { x: n.x * speed, y: n.y * speed }
}

/// The lead time a shot plans for: the flight time to the player's current
/// position (distance over projectile speed), capped.
pub open spec fn aim_time_ms(shooter: Vec2i, player: Vec2i, speed: i64) -> int {
    let t = sqrt_floor(dist_sq(shooter, player)) / (speed as int);
    if t <= AIM_TIME_CAP_MS {
        t
    } else {
        AIM_TIME_CAP_MS as int
    }
}

/// X of the predicted player position after the lead time.
pub open spec fn aim_target_x(shooter: Vec2i, player: Vec2i, vel: Vec2i, speed: i64) -> int {
    player.x + div_trunc(vel.x * aim_time_ms(shooter, player, speed), 1000)
}

/// Y of the predicted player position after the lead time.
pub open spec fn aim_target_y(shooter: Vec2i, player: Vec2i, vel: Vec2i, speed: i64) -> int {
    player.y + div_trunc(vel.y * aim_time_ms(shooter, player, speed), 1000)
}

/// The velocity a shot leaves with: aimed at where the player will stand
/// if it keeps its average velocity for the shot's flight time.
pub fn aim_shot(shooter: &Vec2i, player: &Vec2i, player_vel: &Vec2i, speed: i64) -> (r: Vec2i)
    requires
        bounded(*shooter, COORD_LIMIT as int),
        bounded(*player, COORD_LIMIT as int),
        bounded(*player_vel, 2_000_000),
        1 <= speed <= ENEMY_SPEED_LIMIT,
    ensures
        r.x == norm_x(
            aim_target_x(*shooter, *player, *player_vel, speed) - shooter.x,
            aim_target_y(*shooter, *player, *player_vel, speed) - shooter.y,
        ) * speed,
        r.y == norm_y(
            aim_target_x(*shooter, *player, *player_vel, speed) - shooter.x,
            aim_target_y(*shooter, *player, *player_vel, speed) - shooter.y,
        ) * speed,
        bounded(r, 1000 * ENEMY_SPEED_LIMIT as int),
{
    let d2: i64 = shooter.dist_sq_to(player);
    proof {
        assert((d2 as int) <= (4 * COORD_LIMIT) * (4 * COORD_LIMIT)) by (nonlinear_arith)
            requires
                d2 as int == dist_sq(*shooter, *player),
                dist_sq(*shooter, *player) == (player.x - shooter.x) * (player.x - shooter.x) + (
                player.y - shooter.y) * (player.y - shooter.y),
                -2 * COORD_LIMIT <= player.x - shooter.x <= 2 * COORD_LIMIT,
                -2 * COORD_LIMIT <= player.y - shooter.y <= 2 * COORD_LIMIT,
        ;
    }
    let d: i64 = isqrt64(d2 as u64) as i64;
    proof {
        lemma_sqrt_floor_le(d2 as int, 4 * COORD_LIMIT as int);
        vstd::arithmetic::div_mod::lemma_div_pos_is_pos(d as int, speed as int);
        vstd::arithmetic::div_mod::lemma_div_is_ordered_by_denominator(d as int, 1, speed as int);
        assert(d as int / 1 == d as int);
    }
    let flight: i64 = ((d as u64) / (speed as u64)) as i64;
    let t: i64 = if flight <= AIM_TIME_CAP_MS {
        flight
    } else {
        AIM_TIME_CAP_MS
    };
    proof {
        let vx = player_vel.x as int;
        let vy = player_vel.y as int;
        let ti = t as int;
        assert(-(2_000_000 * AIM_TIME_CAP_MS) <= vx * ti <= 2_000_000 * AIM_TIME_CAP_MS && -(
        2_000_000 * AIM_TIME_CAP_MS) <= vy * ti <= 2_000_000 * AIM_TIME_CAP_MS) by (nonlinear_arith)
            requires
                -2_000_000 <= vx <= 2_000_000,
                -2_000_000 <= vy <= 2_000_000,
                0 <= ti <= AIM_TIME_CAP_MS,
        ;
        lemma_div_trunc_bound(vx * ti, 1000, 980_000_000);
        lemma_div_trunc_bound(vy * ti, 1000, 980_000_000);
    }
    let lead_x: i64 = div_trunc64(player_vel.x * t, 1000);
    let lead_y: i64 = div_trunc64(player_vel.y * t, 1000);
    let toward = Vec2i { x: player.x + lead_x - shooter.x, y: player.y + lead_y - shooter.y };
    let n = toward.normalize_permille();
    proof {
        let nx = n.x as int;
        let ny = n.y as int;
        assert(-(1000 * ENEMY_SPEED_LIMIT) <= nx * speed <= 1000 * ENEMY_SPEED_LIMIT && -(1000
            * ENEMY_SPEED_LIMIT) <= ny * speed <= 1000 * ENEMY_SPEED_LIMIT) by (nonlinear_arith)
            requires
                -1000 <= nx <= 1000,
                -1000 <= ny <= 1000,
                0 <= speed <= ENEMY_SPEED_LIMIT,
        ;
    }
    Vec2i { x: n.x * speed, y: n.y * speed }
}

/// One movement decision for one enemy, as the chase rule requires it:
/// with no player present nothing moves; an enemy whose grace window is
/// open holds its velocity while the window runs down; otherwise it heads
/// straight for the player at its own speed.
pub fn enemy_movement_tick(
    enemy: &mut EnemyState,
    player: &Option<Vec2i>,
    enemy_pos: &Vec2i,
    speed: i64,
    dt_ms: u32,
)
    requires
        old(enemy).hitstun.timer.wf(),
        !old(enemy).hitstun.timer.repeating,
        bounded(*enemy_pos, COORD_LIMIT as int),
        (player matches Some(pp) ==> bounded(*pp, COORD_LIMIT as int)),
        0 <= speed <= ENEMY_SPEED_LIMIT,
        dt_ms <= DT_LIMIT,
    ensures
        final(enemy).id == old(enemy).id,
        final(enemy).no_effect == old(enemy).no_effect,
        final(enemy).hitstun.timer.wf(),
        !final(enemy).hitstun.timer.repeating,
        player is None ==> *final(enemy) == *old(enemy),
        player matches Some(pp) ==> ({
            let before = *old(enemy);
            let after = *final(enemy);
            &&& (before.hitstun.spec_is_set() ==> after.velocity == before.velocity
                && after.hitstun.timer.duration_ms == before.hitstun.timer.duration_ms
                && after.hitstun.timer.elapsed_ms == (if before.hitstun.timer.elapsed_ms + dt_ms
                    >= before.hitstun.timer.duration_ms {
                    before.hitstun.timer.duration_ms as int
                } else {
                    before.hitstun.timer.elapsed_ms + dt_ms
                }))
            &&& (!before.hitstun.spec_is_set() ==> after.hitstun == before.hitstun
                && after.velocity.x == chase_x(*pp, *enemy_pos, speed)
                && after.velocity.y == chase_y(*pp, *enemy_pos, speed))
        }),
{
    match player {
        None => {},
        Some(pp) => {
            if enemy.hitstun.is_set() {
                enemy.hitstun.tick(dt_ms);
            } else {
                enemy.velocity = chase_velocity(pp, enemy_pos, speed);
            }
        },
    }
}

} // verus!
