//! The round director: the interlude clock between rounds, the spawn
//! budget economy, the enemy archetypes, and the spawner that places each
//! enemy at a random point of the viewport perimeter. Randomness comes
//! from one trusted draw; everything decided from a drawn number is
//! verified for every value it can take.

use crate::effects::EnemyHitbox;
use crate::enemy::{Enemy, ShootingEnemy};
use crate::geom::{bounded, Vec2i};
use crate::health::Health;
use crate::num::COORD_LIMIT;
use crate::timer::{Timer, TIME_LIMIT};
use crate::wave::DT_LIMIT;
use vstd::arithmetic::div_mod::{lemma_div_is_ordered, lemma_div_is_ordered_by_denominator,
    lemma_div_pos_is_pos};
use vstd::prelude::*;

verus! {

/// The budget both pools start at.
pub const START_BUDGET: u64 = 5;

/// Upper bound the growing round budget saturates at.
pub const BUDGET_CAP: u64 = 1_000_000_000_000;

/// Milliseconds of interlude before each round.
pub const ROUND_DELAY_MS: u32 = 3000;

/// The spawner's default period between enemies, in milliseconds.
pub const SPAWN_PERIOD_MS: u32 = 500;

/// Hit points per second the player regains during an interlude.
pub const ROUND_HEAL_PER_SEC: i64 = 15;

/// Rounds survived so far.
#[derive(Clone, Copy, Debug, PartialEq, Eq, Structural)]
pub struct Rounds(pub u32);

/// The budget pool the next round will spend.
#[derive(Clone, Copy, Debug, PartialEq, Eq, Structural)]
pub struct Budget(pub u64);

/// The interlude clock between rounds.
#[derive(Clone, Copy, Debug, PartialEq, Eq, Structural)]
pub struct RoundDelay {
    pub timer: Timer,
}

/// The running round's spawner: what is left to spend, the clock between
/// spawns, and whether spawning is on.
#[derive(Clone, Copy, Debug, PartialEq, Eq, Structural)]
pub struct SpawnStatus {
    pub budget: u64,
    pub spawn_timer: Timer,
    pub enabled: bool,
}

/// The three enemy archetypes, cheapest first.
#[derive(Clone, Copy, Debug, PartialEq, Eq, Structural)]
pub enum EnemyKind {
    Normie,
    Layer,
    Ranger,
}

/// What the spawner asks the host to create: an archetype at a perimeter
/// point (centered viewport coordinates, milliunits).
#[derive(Clone, Copy, Debug, PartialEq, Eq, Structural)]
pub struct SpawnCommand {
    pub kind: EnemyKind,
    pub position: Vec2i,
}

impl EnemyKind {
    /// What the archetype costs from the round's spawn budget.
    pub fn cost(&self) -> (r: u64)
        ensures
            r == spec_cost(*self),
    {
        match self {
            EnemyKind::Normie => 1,
            EnemyKind::Layer => 2,
            EnemyKind::Ranger => 5,
        }
    }

    /// The total budget a round must exceed before the archetype appears.
    pub fn required_budget(&self) -> (r: u64)
        ensures
            r == spec_required_budget(*self),
    {
        match self {
            EnemyKind::Normie => 0,
            EnemyKind::Layer => 6,
            EnemyKind::Ranger => 10,
        }
    }

    /// The pause the spawner takes after creating this archetype.
    pub fn spawn_delay_ms(&self) -> (r: u32)
        ensures
            r == spec_spawn_delay_ms(*self),
            1 <= r <= TIME_LIMIT,
    {
        match self {
            EnemyKind::Normie => 1000,
            EnemyKind::Layer => 2000,
            EnemyKind::Ranger => 2000,
        }
    }
}

/// The archetype's spawn cost.
pub open spec fn spec_cost(k: EnemyKind) -> u64 {
    match k {
        EnemyKind::Normie => 1,
        EnemyKind::Layer => 2,
        EnemyKind::Ranger => 5,
    }
}

/// The round budget an archetype needs before it appears.
pub open spec fn spec_required_budget(k: EnemyKind) -> u64 {
    match k {
        EnemyKind::Normie => 0,
        EnemyKind::Layer => 6,
        EnemyKind::Ranger => 10,
    }
}

/// The spawner's pause after each archetype.
pub open spec fn spec_spawn_delay_ms(k: EnemyKind) -> u32 {
    match k {
        EnemyKind::Normie => 1000,
        EnemyKind::Layer => 2000,
        EnemyKind::Ranger => 2000,
    }
}

/// The archetype may spawn now: the round budget exceeds its threshold and
/// the remaining spawn budget covers its cost.
pub open spec fn eligible(k: EnemyKind, round_budget: u64, spawn_budget: u64) -> bool {
    round_budget > spec_required_budget(k) && spawn_budget >= spec_cost(k)
}

/// The archetype at a selection index, cheapest first.
pub open spec fn kind_at(i: int) -> EnemyKind {
    if i == 0 {
        EnemyKind::Normie
    } else if i == 1 {
        EnemyKind::Layer
    } else {
        EnemyKind::Ranger
    }
}

/// How many archetypes may spawn now.
pub open spec fn eligible_count(round_budget: u64, spawn_budget: u64) -> int {
    (if eligible(EnemyKind::Normie, round_budget, spawn_budget) {
        1int
    } else {
        0int
    }) + (if eligible(EnemyKind::Layer, round_budget, spawn_budget) {
        1int
    } else {
        0int
    }) + (if eligible(EnemyKind::Ranger, round_budget, spawn_budget) {
        1int
    } else {
        0int
    })
}

/// Eligibility is a prefix of the cheapest-first order: whatever may spawn,
/// everything cheaper with a lower threshold may too — so picking by index
/// below the count always lands on an eligible archetype.
pub proof fn lemma_eligibility_prefix(round_budget: u64, spawn_budget: u64, i: int)
    requires
        0 <= i < eligible_count(round_budget, spawn_budget),
    ensures
        eligible(kind_at(i), round_budget, spawn_budget),
        eligible(EnemyKind::Ranger, round_budget, spawn_budget) ==> eligible(
            EnemyKind::Layer,
            round_budget,
            spawn_budget,
        ),
        eligible(EnemyKind::Layer, round_budget, spawn_budget) ==> eligible(
            EnemyKind::Normie,
            round_budget,
            spawn_budget,
        ),
{
}

/// How far the spawn perimeter stands outside the viewport: each axis is
/// inflated by this much (milliunits; ten world units beyond each edge),
/// so enemies appear just off screen.
pub const SPAWN_MARGIN: i64 = 20_000;

/// The point lies on the spawn perimeter: the centered rectangle of the
/// viewport inflated by the spawn margin.
pub open spec fn on_spawn_perimeter(p: Vec2i, viewport_w: int, viewport_h: int) -> bool {
    let w = viewport_w + SPAWN_MARGIN;
    let h = viewport_h + SPAWN_MARGIN;
    let px = p.x + w / 2;
    let py = p.y + h / 2;
    0 <= px <= w && 0 <= py <= h && (px == 0 || px == w || py == 0 || py == h)
}

/// X of the point a scalar in `[0, 2w + 2h)` picks when walked along the
/// viewport perimeter: bottom edge, right edge, top edge, left edge.
pub open spec fn perim_x(s: int, w: int, h: int) -> int {
    if s < w {
        s
    } else if s - w < h {
        w
    } else if s - w - h < w {
        s - w - h
    } else {
        0
    }
}

/// Y of the perimeter point; see [`perim_x`].
pub open spec fn perim_y(s: int, w: int, h: int) -> int {
    if s < w {
        0
    } else if s - w < h {
        s - w
    } else if s - w - h < w {
        h
    } else {
        s - 2 * w - h
    }
}

/// The perimeter point of a scalar, re-centered so the viewport center is
/// the origin.
pub fn perimeter_point(scalar: i64, w: i64, h: i64) -> (r: Vec2i)
    requires
        1 <= w <= COORD_LIMIT,
        1 <= h <= COORD_LIMIT,
        0 <= scalar < 2 * w + 2 * h,
    ensures
        r.x == perim_x(scalar as int, w as int, h as int) - w / 2,
        r.y == perim_y(scalar as int, w as int, h as int) - h / 2,
        ({
            let px = perim_x(scalar as int, w as int, h as int);
            let py = perim_y(scalar as int, w as int, h as int);
            0 <= px <= w && 0 <= py <= h && (px == 0 || px == w || py == 0 || py == h)
        }),
        bounded(r, COORD_LIMIT as int),
{
    let half_w: i64 = ((w as u64) / 2) as i64;
    let half_h: i64 = ((h as u64) / 2) as i64;
    proof {
        lemma_div_pos_is_pos(w as int, 2);
        lemma_div_pos_is_pos(h as int, 2);
        lemma_div_is_ordered(w as int, COORD_LIMIT as int, 2);
        lemma_div_is_ordered(h as int, COORD_LIMIT as int, 2);
        lemma_div_is_ordered_by_denominator(w as int, 1, 2);
        lemma_div_is_ordered_by_denominator(h as int, 1, 2);
        assert(w as int / 1 == w as int && h as int / 1 == h as int);
    }
    let (px, py): (i64, i64) = if scalar < w {
        (scalar, 0)
    } else if scalar - w < h {
        (w, scalar - w)
    } else if scalar - w - h < w {
        (scalar - w - h, h)
    } else {
        (0, scalar - 2 * w - h)
    };
    Vec2i { x: px - half_w, y: py - half_h }
}

/// Relies on fastrand::u64: a number drawn from `0..bound` by the
/// thread-local generator. The draw panics on an empty range, so the bound
/// must be positive; nothing beyond the range is assumed of the result.
#[verifier::external_body]
fn draw_below(bound: u64) -> (r: u64)
    requires
        bound >= 1,
    ensures
        r < bound,
{
    fastrand::u64(0..bound)
}

/// The spawner's state is sound: its clock well formed, the budget pool in
/// its band, and an enabled spawner always has something it could spend.
pub open spec fn spawn_wf(budget: Budget, status: SpawnStatus) -> bool {
    &&& status.spawn_timer.wf()
    &&& START_BUDGET <= budget.0 <= BUDGET_CAP
    &&& status.budget <= BUDGET_CAP
    &&& (status.enabled ==> status.budget >= 1)
}

/// The director's whole state is sound.
pub open spec fn director_wf(budget: Budget, delay: RoundDelay, status: SpawnStatus) -> bool {
    &&& delay.timer.wf()
    &&& spawn_wf(budget, status)
}

/// A fresh director: the starting budget, the interlude clock running, the
/// spawner off.
pub fn director_start() -> (r: (Budget, RoundDelay, SpawnStatus))
    ensures
        r.0 == (Budget(START_BUDGET)),
        r.1.timer == (Timer { duration_ms: ROUND_DELAY_MS, elapsed_ms: 0, repeating: true }),
        r.2 == (SpawnStatus {
            budget: START_BUDGET,
            spawn_timer: Timer { duration_ms: SPAWN_PERIOD_MS, elapsed_ms: 0, repeating: true },
            enabled: false,
        }),
        director_wf(r.0, r.1, r.2),
{
    (
        Budget(START_BUDGET),
        RoundDelay { timer: Timer::repeating(ROUND_DELAY_MS) },
        SpawnStatus {
            budget: START_BUDGET,
            spawn_timer: Timer::repeating(SPAWN_PERIOD_MS),
            enabled: false,
        },
    )
}

/// Put the director back in its starting state, keeping the clock
/// durations.
pub fn director_reset(budget: &mut Budget, delay: &mut RoundDelay, status: &mut SpawnStatus)
    requires
        old(delay).timer.wf(),
        old(status).spawn_timer.wf(),
    ensures
        final(budget).0 == START_BUDGET,
        final(delay).timer == (Timer {
            duration_ms: old(delay).timer.duration_ms,
            elapsed_ms: 0,
            repeating: old(delay).timer.repeating,
        }),
        final(status).budget == START_BUDGET,
        final(status).spawn_timer == (Timer {
            duration_ms: old(status).spawn_timer.duration_ms,
            elapsed_ms: 0,
            repeating: old(status).spawn_timer.repeating,
        }),
        !final(status).enabled,
        director_wf(*final(budget), *final(delay), *final(status)),
{
    budget.0 = START_BUDGET;
    delay.timer.reset();
    status.budget = START_BUDGET;
    status.spawn_timer.reset();
    status.enabled = false;
}

/// The interlude tick: while the spawner is off and no enemy lives, the
/// interlude clock runs and the player heals; when the clock wraps, the
/// round counter steps and the spawner is armed with the full budget.
/// Returns the healing earned this tick, in milli-hit-points.
pub fn tick_round_delay(
    rounds: &mut Rounds,
    budget: &Budget,
    delay: &mut RoundDelay,
    status: &mut SpawnStatus,
    enemies_alive: bool,
    player_present: bool,
    dt_ms: u32,
) -> (heal: i64)
    requires
        director_wf(*budget, *old(delay), *old(status)),
        old(delay).timer.repeating,
        dt_ms <= DT_LIMIT,
    ensures
        director_wf(*budget, *final(delay), *final(status)),
        ({
            let interlude = !old(status).enabled && !enemies_alive;
            let fired = interlude && old(delay).timer.elapsed_ms + dt_ms
                >= old(delay).timer.duration_ms;
            &&& heal == if interlude && player_present {
                ROUND_HEAL_PER_SEC * dt_ms
            } else {
                0
            }
            &&& final(rounds).0 == if fired && old(rounds).0 < u32::MAX {
                old(rounds).0 + 1
            } else {
                old(rounds).0 as int
            }
            &&& final(status).enabled == (old(status).enabled || fired)
            &&& final(status).budget == if fired {
                budget.0
            } else {
                old(status).budget
            }
            &&& final(status).spawn_timer == old(status).spawn_timer
            &&& (!interlude ==> *final(delay) == *old(delay) && *final(status) == *old(status)
                && final(rounds).0 == old(rounds).0)
        }),
{
    if status.enabled || enemies_alive {
        return 0;
    }
    let fired = self_tick_delay(delay, dt_ms);
    if fired {
        if rounds.0 < u32::MAX {
            rounds.0 = rounds.0 + 1;
        }
        status.enabled = true;
        status.budget = budget.0;
    }
    if player_present {
        ROUND_HEAL_PER_SEC * (dt_ms as i64)
    } else {
        0
    }
}

/// Advance the interlude clock one tick.
fn self_tick_delay(delay: &mut RoundDelay, dt_ms: u32) -> (fired: bool)
    requires
        old(delay).timer.wf(),
        dt_ms <= DT_LIMIT,
    ensures
        final(delay).timer.wf(),
        final(delay).timer.duration_ms == old(delay).timer.duration_ms,
        final(delay).timer.repeating == old(delay).timer.repeating,
        fired == (old(delay).timer.elapsed_ms + dt_ms >= old(delay).timer.duration_ms),
{
    delay.timer.tick(dt_ms)
}

/// The budget a finished round leaves for the next: it grows by two
/// fifths, saturating at the cap.
pub open spec fn grown_budget(b: u64) -> u64 {
    if b * 7 / 5 > BUDGET_CAP {
        BUDGET_CAP
    } else {
        (b * 7 / 5) as u64
    }
}

/// Budget growth never shrinks the pool and respects the cap.
pub proof fn lemma_budget_grows(b: u64)
    requires
        b <= BUDGET_CAP,
    ensures
        b <= grown_budget(b) <= BUDGET_CAP,
{
    assert(b * 5 <= b * 7) by (nonlinear_arith)
        requires
            b >= 0,
    ;
    lemma_div_is_ordered(b * 5, b * 7, 5);
    vstd::arithmetic::div_mod::lemma_div_multiples_vanish(b as int, 5);
}

/// The spawner tick: while armed, its clock runs; each time it wraps, one
/// enemy is drawn. The archetype index is drawn below the count of
/// eligible archetypes — eligibility is a prefix, so the pick is always
/// eligible — its cost leaves the spawn budget, the clock takes the
/// archetype's own period, and a spent budget disarms the spawner and
/// grows the next round's pool. The spawn position is a uniformly drawn
/// point of the centered viewport perimeter.
pub fn spawn_tick(
    budget: &mut Budget,
    status: &mut SpawnStatus,
    viewport_w: i64,
    viewport_h: i64,
    dt_ms: u32,
) -> (command: Option<SpawnCommand>)
    requires
        spawn_wf(*old(budget), *old(status)),
        old(status).spawn_timer.repeating,
        1 <= viewport_w <= COORD_LIMIT - SPAWN_MARGIN,
        1 <= viewport_h <= COORD_LIMIT - SPAWN_MARGIN,
        dt_ms <= DT_LIMIT,
    ensures
        spawn_wf(*final(budget), *final(status)),
        final(status).spawn_timer.repeating,
        !old(status).enabled ==> command is None && *final(status) == *old(status)
            && *final(budget) == *old(budget),
        old(status).enabled && old(status).spawn_timer.elapsed_ms + dt_ms >= old(
            status,
        ).spawn_timer.duration_ms ==> command is Some,
        command matches Some(c) ==> {
            &&& eligible(c.kind, old(budget).0, old(status).budget)
            &&& on_spawn_perimeter(c.position, viewport_w as int, viewport_h as int)
            &&& bounded(c.position, COORD_LIMIT as int)
            &&& final(status).budget == old(status).budget - spec_cost(c.kind)
            &&& final(status).spawn_timer.duration_ms == spec_spawn_delay_ms(c.kind)
            &&& final(status).enabled == (final(status).budget != 0)
            &&& final(budget).0 == if final(status).budget == 0 {
                grown_budget(old(budget).0)
            } else {
                old(budget).0
            }
        },
        command is None ==> final(budget).0 == old(budget).0 && final(status).budget == old(
            status,
        ).budget && final(status).enabled == old(status).enabled,
{
    if !status.enabled {
        return None;
    }
    let fired = status.spawn_timer.tick(dt_ms);
    if !fired {
        return None;
    }
    let spawn_w: i64 = viewport_w + SPAWN_MARGIN;
    let spawn_h: i64 = viewport_h + SPAWN_MARGIN;
    let perimeter: i64 = 2 * spawn_w + 2 * spawn_h;
    let scalar: i64 = draw_below(perimeter as u64) as i64;
    let position = perimeter_point(scalar, spawn_w, spawn_h);
    let mut count: u64 = 0;
    if budget.0 > 0 && status.budget >= 1 {
        count = count + 1;
    }
    if budget.0 > 6 && status.budget >= 2 {
        count = count + 1;
    }
    if budget.0 > 10 && status.budget >= 5 {
        count = count + 1;
    }
    proof {
        assert(count == eligible_count(old(budget).0, old(status).budget));
        assert(count >= 1);
    }
    let selected: u64 = draw_below(count);
    let kind: EnemyKind = if selected == 0 {
        EnemyKind::Normie
    } else if selected == 1 {
        EnemyKind::Layer
    } else {
        EnemyKind::Ranger
    };
    proof {
        lemma_eligibility_prefix(old(budget).0, old(status).budget, selected as int);
        assert(kind_at(selected as int) == kind);
        assert(eligible(kind, old(budget).0, old(status).budget));
    }
    let cost = kind.cost();
    status.budget = status.budget - cost;
    status.spawn_timer.set_duration(kind.spawn_delay_ms());
    if status.budget == 0 {
        status.enabled = false;
        proof {
            lemma_budget_grows(old(budget).0);
        }
        let grown: u64 = budget.0 * 7 / 5;
        budget.0 = if grown > BUDGET_CAP {
            BUDGET_CAP
        } else {
            grown
        };
    }
    Some(SpawnCommand { kind, position })
}

/// Everything the host needs to assemble one enemy: body, health pool,
/// touch hitbox, and the shooting behavior of the ranged archetypes.
#[derive(Clone, Copy, Debug, PartialEq, Eq, Structural)]
pub struct Archetype {
    pub body: Enemy,
    pub health: Health,
    pub hitbox: EnemyHitbox,
    pub shot: Option<ShootingEnemy>,
}

impl EnemyKind {
    /// The archetype's full stat block. Speeds are world units per second,
    /// health and damage milli-hit-points, sizes milliunits.
    pub fn archetype(&self) -> (r: Archetype)
        ensures
            self is Normie ==> r == (Archetype {
                body: Enemy { speed: 80 },
                health: Health { current: 30000, max: 30000 },
                hitbox: EnemyHitbox { damage: 10000, once: false },
                shot: Option::None,
            }),
            self is Ranger ==> r == (Archetype {
                body: Enemy { speed: 30 },
                health: Health { current: 10000, max: 10000 },
                hitbox: EnemyHitbox { damage: 100, once: false },
                shot: Option::Some(
                    ShootingEnemy {
                        timer: Timer { duration_ms: 1000, elapsed_ms: 0, repeating: true },
                        speed: 400,
                        lifespan_ms: 5000,
                        damage: 7000,
                        size: 8000,
                    },
                ),
            }),
            self is Layer ==> r == (Archetype {
                body: Enemy { speed: 40 },
                health: Health { current: 20000, max: 20000 },
                hitbox: EnemyHitbox { damage: 100, once: false },
                shot: Option::Some(
                    ShootingEnemy {
                        timer: Timer { duration_ms: 2000, elapsed_ms: 0, repeating: true },
                        speed: 4,
                        lifespan_ms: 60000,
                        damage: 10000,
                        size: 8000,
                    },
                ),
            }),
            r.health.wf(),
            r.body.speed >= 1,
            r matches (Archetype { shot: Option::Some(se), .. }) ==> se.timer.wf()
                && se.timer.repeating,
    {
        match self {
            EnemyKind::Normie => Archetype {
                body: Enemy { speed: 80 },
                health: Health::new(30000),
                hitbox: EnemyHitbox { damage: 10000, once: false },
                shot: None,
            },
            EnemyKind::Ranger => Archetype {
                body: Enemy { speed: 30 },
                health: Health::new(10000),
                hitbox: EnemyHitbox { damage: 100, once: false },
                shot: Some(
                    ShootingEnemy {
                        timer: Timer::repeating(1000),
                        speed: 400,
                        lifespan_ms: 5000,
                        damage: 7000,
                        size: 8000,
                    },
                ),
            },
            EnemyKind::Layer => Archetype {
                body: Enemy { speed: 40 },
                health: Health::new(20000),
                hitbox: EnemyHitbox { damage: 100, once: false },
                shot: Some(
                    ShootingEnemy {
                        timer: Timer::repeating(2000),
                        speed: 4,
                        lifespan_ms: 60000,
                        damage: 10000,
                        size: 8000,
                    },
                ),
            },
        }
    }
}

} // verus!
