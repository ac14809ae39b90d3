//! Effect resolvers: the consumers of physics collision events between
//! interaction volumes and game entities. Each resolver is a pure function
//! over (state, event batch): it folds the batch in order, so its contract
//! is the exact left fold of a per-event step function. Destructive volumes
//! toggle an enemy's no-effect marker, positive volumes damage and knock
//! back enemies outside their grace window, negative volumes destroy enemy
//! projectiles, and a per-tick sweep clears stray markers.

use crate::geom::{bounded, dist_sq, norm_x, norm_y, Vec2i};
use crate::interference::InterferenceKind;
use crate::health::HealthChangeEvent;
use crate::num::{div_trunc, div_trunc64, lemma_div_trunc_bound, COORD_LIMIT};
use crate::timer::{Timer, TIME_LIMIT};
use crate::volume::WaveInterference;
use crate::wave::{age_sq_permille, Wave, DT_LIMIT};
use vstd::prelude::*;

verus! {

/// The grace window set on an enemy after a positive-interference hit, in
/// milliseconds.
pub const HITSTUN_MS: u32 = 250;

/// A post-hit grace window: while set, the enemy ignores movement control
/// and takes no further interference damage.
#[derive(Clone, Copy, Debug, PartialEq, Eq, Structural)]
pub struct Hitstun {
    pub timer: Timer,
}

impl Hitstun {
    /// The window is still open.
    pub open spec fn spec_is_set(self) -> bool {
        !self.timer.spec_finished()
    }

    /// A fresh window of `time_ms`; a zero request still opens the window
    /// for a minimal instant, as a just-spawned enemy sits out one tick.
    pub fn new(time_ms: u32) -> (r: Hitstun)
        requires
            time_ms <= TIME_LIMIT,
        ensures
            r.timer == (Timer {
                duration_ms: if time_ms == 0 { 1u32 } else { time_ms },
                elapsed_ms: 0,
                repeating: false,
            }),
            r.timer.wf(),
            r.spec_is_set(),
    {
        let duration = if time_ms == 0 {
            1
        } else {
            time_ms
        };
        Hitstun { timer: Timer::once(duration) }
    }

    /// Open the window for `time_ms` from now.
    pub fn set(&mut self, time_ms: u32)
        requires
            1 <= time_ms <= TIME_LIMIT,
        ensures
            final(self).timer == (Timer {
                duration_ms: time_ms,
                elapsed_ms: 0,
                repeating: false,
            }),
            final(self).timer.wf(),
            final(self).spec_is_set(),
    {
        self.timer = Timer::once(time_ms);
    }

    /// Whether the window is still open.
    pub fn is_set(&self) -> (r: bool)
        ensures
            r == self.spec_is_set(),
    {
        !self.timer.finished()
    }

    /// Run the window down by `dt_ms`.
    pub fn tick(&mut self, dt_ms: u32)
        requires
            old(self).timer.wf(),
            !old(self).timer.repeating,
            dt_ms <= TIME_LIMIT,
        ensures
            final(self).timer.wf(),
            final(self).timer.duration_ms == old(self).timer.duration_ms,
            final(self).timer.repeating == old(self).timer.repeating,
            final(self).timer.elapsed_ms == if old(self).timer.elapsed_ms + dt_ms >= old(
                self,
            ).timer.duration_ms {
                old(self).timer.duration_ms as int
            } else {
                old(self).timer.elapsed_ms + dt_ms
            },
    {
        self.timer.tick(dt_ms);
    }
}

/// The per-tick state of one enemy, as the resolvers see it: identity,
/// grace window, no-effect marker, and velocity (milliunits per second).
#[derive(Clone, Copy, Debug, PartialEq, Eq, Structural)]
pub struct EnemyState {
    pub id: u64,
    pub hitstun: Hitstun,
    pub no_effect: bool,
    pub velocity: Vec2i,
}

/// One collision report from the physics backend: a contact between two
/// entities began (`started`) or ended.
#[derive(Clone, Copy, Debug, PartialEq, Eq, Structural)]
pub struct CollisionEvent {
    pub first: u64,
    pub second: u64,
    pub started: bool,
}

/// Index of the first enemy with the given id at or after `k`, or -1.
pub open spec fn enemy_from(s: Seq<EnemyState>, id: u64, k: int) -> int
    decreases s.len() - k,
{
    if k < 0 || k >= s.len() {
        -1
    } else if s[k].id == id {
        k
    } else {
        enemy_from(s, id, k + 1)
    }
}

/// Index of the first enemy with the given id, or -1.
pub open spec fn find_enemy(s: Seq<EnemyState>, id: u64) -> int {
    enemy_from(s, id, 0)
}

/// Index of the first volume with the given id at or after `k`, or -1.
pub open spec fn volume_from(s: Seq<(u64, WaveInterference)>, id: u64, k: int) -> int
    decreases s.len() - k,
{
    if k < 0 || k >= s.len() {
        -1
    } else if s[k].0 == id {
        k
    } else {
        volume_from(s, id, k + 1)
    }
}

/// Index of the first volume with the given id, or -1.
pub open spec fn find_volume(s: Seq<(u64, WaveInterference)>, id: u64) -> int {
    volume_from(s, id, 0)
}

/// Resolve a collision pair into (enemy index, volume index): the first
/// entity that is an enemy pairs with the other entity as a volume; the
/// pair is dropped (-1, -1) when no such reading fits.
pub open spec fn enemy_volume_roles(
    enemies: Seq<EnemyState>,
    vols: Seq<(u64, WaveInterference)>,
    ev: CollisionEvent,
) -> (int, int) {
    let e1 = find_enemy(enemies, ev.first);
    if e1 >= 0 {
        let v2 = find_volume(vols, ev.second);
        if v2 >= 0 {
            (e1, v2)
        } else {
            (-1, -1)
        }
    } else {
        let e2 = find_enemy(enemies, ev.second);
        if e2 >= 0 {
            let v1 = find_volume(vols, ev.first);
            if v1 >= 0 {
                (e2, v1)
            } else {
                (-1, -1)
            }
        } else {
            (-1, -1)
        }
    }
}

/// Look up the first enemy with the given id.
fn enemy_index(enemies: &Vec<EnemyState>, id: u64) -> (r: Option<usize>)
    ensures
        match r {
            Some(i) => 0 <= i < enemies@.len() && find_enemy(enemies@, id) == i as int,
            None => find_enemy(enemies@, id) == -1,
        },
{
    let n = enemies.len();
    let mut k: usize = 0;
    while k < n
        invariant
            k <= n,
            n == enemies@.len(),
            find_enemy(enemies@, id) == enemy_from(enemies@, id, k as int),
        decreases n - k,
    {
        if enemies[k].id == id {
            return Some(k);
        }
        k = k + 1;
    }
    None
}

/// Look up the first volume with the given id.
fn volume_index(vols: &Vec<(u64, WaveInterference)>, id: u64) -> (r: Option<usize>)
    ensures
        match r {
            Some(i) => 0 <= i < vols@.len() && find_volume(vols@, id) == i as int,
            None => find_volume(vols@, id) == -1,
        },
{
    let n = vols.len();
    let mut k: usize = 0;
    while k < n
        invariant
            k <= n,
            n == vols@.len(),
            find_volume(vols@, id) == volume_from(vols@, id, k as int),
        decreases n - k,
    {
        if vols[k].0 == id {
            return Some(k);
        }
        k = k + 1;
    }
    None
}

/// Replace one enemy entry in place.
fn set_enemy(enemies: &mut Vec<EnemyState>, idx: usize, e: EnemyState)
    requires
        idx < old(enemies)@.len(),
    ensures
        final(enemies)@ =~= old(enemies)@.update(idx as int, e),
        final(enemies)@.len() == old(enemies)@.len(),
{
    let old_entry = enemies.remove(idx);
    enemies.insert(idx, e);
    proof {
        assert(final(enemies)@ =~= old(enemies)@.update(idx as int, e));
    }
}

/// One destructive-resolver step: a started contact between an enemy and a
/// destructive volume marks the enemy no-effect, a stopped contact clears
/// the marker; every other event leaves the state unchanged.
pub open spec fn destructive_step(
    enemies: Seq<EnemyState>,
    vols: Seq<(u64, WaveInterference)>,
    ev: CollisionEvent,
) -> Seq<EnemyState> {
    let roles = enemy_volume_roles(enemies, vols, ev);
    if roles.0 >= 0 && vols[roles.1].1.kind == InterferenceKind::Destructive {
        enemies.update(roles.0, EnemyState { no_effect: ev.started, ..enemies[roles.0] })
    } else {
        enemies
    }
}

/// The destructive resolver folded over the first `k` events.
pub open spec fn destructive_fold(
    enemies: Seq<EnemyState>,
    vols: Seq<(u64, WaveInterference)>,
    evs: Seq<CollisionEvent>,
    k: int,
) -> Seq<EnemyState>
    decreases k,
{
    if k <= 0 {
        enemies
    } else {
        destructive_step(destructive_fold(enemies, vols, evs, k - 1), vols, evs[k - 1])
    }
}

/// The destructive-interference resolver: fold this tick's collision
/// events, toggling enemies' no-effect markers by their containment in
/// destructive volumes.
pub fn destructive_interference(
    enemies: &mut Vec<EnemyState>,
    vols: &Vec<(u64, WaveInterference)>,
    events: &Vec<CollisionEvent>,
)
    ensures
        final(enemies)@ == destructive_fold(old(enemies)@, vols@, events@, events@.len() as int),
{
    let n = events.len();
    let mut k: usize = 0;
    while k < n
        invariant
            k <= n,
            n == events@.len(),
            enemies@ == destructive_fold(old(enemies)@, vols@, events@, k as int),
        decreases n - k,
    {
        let ev = events[k];
        let ghost pre = enemies@;
        let first_as_enemy = enemy_index(enemies, ev.first);
        match first_as_enemy {
            Some(i) => {
                match volume_index(vols, ev.second) {
                    Some(v) => {
                        if matches!(vols[v].1.kind, InterferenceKind::Destructive) {
                            let cur = enemies[i];
                            set_enemy(enemies, i, EnemyState { no_effect: ev.started, ..cur });
                        }
                    },
                    None => {},
                }
            },
            None => {
                match enemy_index(enemies, ev.second) {
                    Some(i) => {
                        match volume_index(vols, ev.first) {
                            Some(v) => {
                                if matches!(vols[v].1.kind, InterferenceKind::Destructive) {
                                    let cur = enemies[i];
                                    set_enemy(
                                        enemies,
                                        i,
                                        EnemyState { no_effect: ev.started, ..cur },
                                    );
                                }
                            },
                            None => {},
                        }
                    },
                    None => {},
                }
            },
        }
        proof {
            assert(enemies@ =~= destructive_step(pre, vols@, ev));
        }
        k = k + 1;
    }
}

/// Index of the first projectile with the given id at or after `k`, or -1.
pub open spec fn id_from(s: Seq<u64>, id: u64, k: int) -> int
    decreases s.len() - k,
{
    if k < 0 || k >= s.len() {
        -1
    } else if s[k] == id {
        k
    } else {
        id_from(s, id, k + 1)
    }
}

/// Index of the first projectile with the given id, or -1.
pub open spec fn find_id(s: Seq<u64>, id: u64) -> int {
    id_from(s, id, 0)
}

/// Look up the first plain id in a list.
fn id_index(ids: &Vec<u64>, id: u64) -> (r: Option<usize>)
    ensures
        match r {
            Some(i) => 0 <= i < ids@.len() && find_id(ids@, id) == i as int,
            None => find_id(ids@, id) == -1,
        },
{
    let n = ids.len();
    let mut k: usize = 0;
    while k < n
        invariant
            k <= n,
            n == ids@.len(),
            find_id(ids@, id) == id_from(ids@, id, k as int),
        decreases n - k,
    {
        if ids[k] == id {
            return Some(k);
        }
        k = k + 1;
    }
    None
}

/// The index of the enemy with this id, provided it is not suppressed by a
/// no-effect marker; a suppressed enemy is invisible to the positive
/// resolver.
pub open spec fn active_enemy(enemies: Seq<EnemyState>, id: u64) -> int {
    let i = find_enemy(enemies, id);
    if i >= 0 && !enemies[i].no_effect {
        i
    } else {
        -1
    }
}

/// Resolve a collision pair into (active enemy index, volume index) for the
/// positive resolver; (-1, -1) when no reading fits.
pub open spec fn positive_roles(
    enemies: Seq<EnemyState>,
    vols: Seq<(u64, WaveInterference)>,
    ev: CollisionEvent,
) -> (int, int) {
    let e1 = active_enemy(enemies, ev.first);
    if e1 >= 0 {
        let v2 = find_volume(vols, ev.second);
        if v2 >= 0 {
            (e1, v2)
        } else {
            (-1, -1)
        }
    } else {
        let e2 = active_enemy(enemies, ev.second);
        if e2 >= 0 {
            let v1 = find_volume(vols, ev.first);
            if v1 >= 0 {
                (e2, v1)
            } else {
                (-1, -1)
            }
        } else {
            (-1, -1)
        }
    }
}

/// X of the knockback velocity `direction * 50 * (0.5 + strength / 2)`, in
/// milliunits per second over permille quantities.
pub open spec fn knockback_x(direction: Vec2i, strength: i64) -> i64 {
    div_trunc(direction.x * 25 * (1000 + strength), 1000) as i64
}

/// Y of the knockback velocity; see [`knockback_x`].
pub open spec fn knockback_y(direction: Vec2i, strength: i64) -> i64 {
    div_trunc(direction.y * 25 * (1000 + strength), 1000) as i64
}

/// The health delta of one positive hit: `-10 * (0.5 + strength / 2)` hit
/// points, in milli-hit-points over a permille strength.
pub open spec fn positive_damage(strength: i64) -> i64 {
    (-5000 - 5 * strength) as i64
}

/// One positive-resolver step: a started contact between an unsuppressed
/// enemy and a positive volume knocks the enemy back and opens its grace
/// window; damage is dealt only when the window was not already open.
pub open spec fn positive_step(
    enemies: Seq<EnemyState>,
    vols: Seq<(u64, WaveInterference)>,
    ev: CollisionEvent,
) -> (Seq<EnemyState>, Option<HealthChangeEvent>) {
    if !ev.started {
        (enemies, Option::None)
    } else {
        let roles = positive_roles(enemies, vols, ev);
        if roles.0 >= 0 && vols[roles.1].1.kind == InterferenceKind::Positive {
            let en = enemies[roles.0];
            let vol = vols[roles.1].1;
            let hit = EnemyState {
                hitstun: Hitstun {
                    timer: Timer { duration_ms: HITSTUN_MS, elapsed_ms: 0, repeating: false },
                },
                velocity: Vec2i {
                    x: knockback_x(vol.direction, vol.strength),
                    y: knockback_y(vol.direction, vol.strength),
                },
                ..en
            };
            let dmg = if !en.hitstun.spec_is_set() {
                Option::Some(
                    HealthChangeEvent { target: en.id, amount: positive_damage(vol.strength) },
                )
            } else {
                Option::None
            };
            (enemies.update(roles.0, hit), dmg)
        } else {
            (enemies, Option::None)
        }
    }
}

/// The positive resolver folded over the first `k` events: the enemy states
/// after them, and the health changes they emitted, in order.
pub open spec fn positive_fold(
    enemies: Seq<EnemyState>,
    vols: Seq<(u64, WaveInterference)>,
    evs: Seq<CollisionEvent>,
    k: int,
) -> (Seq<EnemyState>, Seq<HealthChangeEvent>)
    decreases k,
{
    if k <= 0 {
        (enemies, Seq::empty())
    } else {
        let prev = positive_fold(enemies, vols, evs, k - 1);
        let step = positive_step(prev.0, vols, evs[k - 1]);
        (
            step.0,
            match step.1 {
                Option::Some(h) => prev.1.push(h),
                Option::None => prev.1,
            },
        )
    }
}

/// Every volume payload carries a permille strength and direction, as the
/// materializer makes them.
pub open spec fn vols_wf(vols: Seq<(u64, WaveInterference)>) -> bool {
    forall|i: int|
        0 <= i < vols.len() ==> 0 <= (#[trigger] vols[i]).1.strength <= 1000 && bounded(
            vols[i].1.direction,
            1000,
        )
}

/// The positive-interference resolver: fold this tick's collision events,
/// damaging and knocking back unsuppressed enemies hit by positive volumes,
/// with damage gated by each enemy's grace window.
pub fn positive_interference(
    enemies: &mut Vec<EnemyState>,
    vols: &Vec<(u64, WaveInterference)>,
    events: &Vec<CollisionEvent>,
) -> (health_events: Vec<HealthChangeEvent>)
    requires
        vols_wf(vols@),
    ensures
        final(enemies)@ == positive_fold(old(enemies)@, vols@, events@, events@.len() as int).0,
        health_events@ == positive_fold(old(enemies)@, vols@, events@, events@.len() as int).1,
{
    let n = events.len();
    let mut health_events: Vec<HealthChangeEvent> = Vec::new();
    let mut k: usize = 0;
    while k < n
        invariant
            k <= n,
            n == events@.len(),
            vols_wf(vols@),
            enemies@ == positive_fold(old(enemies)@, vols@, events@, k as int).0,
            health_events@ == positive_fold(old(enemies)@, vols@, events@, k as int).1,
        decreases n - k,
    {
        let ev = events[k];
        let ghost pre = enemies@;
        if ev.started {
            let first_active: Option<usize> = match enemy_index(enemies, ev.first) {
                Some(i) => if !enemies[i].no_effect {
                    Some(i)
                } else {
                    None
                },
                None => None,
            };
            let mut slot: Option<(usize, usize)> = None;
            match first_active {
                Some(i) => {
                    match volume_index(vols, ev.second) {
                        Some(v) => {
                            slot = Some((i, v));
                        },
                        None => {},
                    }
                },
                None => {
                    let second_active: Option<usize> = match enemy_index(enemies, ev.second) {
                        Some(i) => if !enemies[i].no_effect {
                            Some(i)
                        } else {
                            None
                        },
                        None => None,
                    };
                    match second_active {
                        Some(i) => {
                            match volume_index(vols, ev.first) {
                                Some(v) => {
                                    slot = Some((i, v));
                                },
                                None => {},
                            }
                        },
                        None => {},
                    }
                },
            }
            match slot {
                Some((i, v)) => {
                    if matches!(vols[v].1.kind, InterferenceKind::Positive) {
                        let vol = vols[v].1;
                        let en = enemies[i];
                        proof {
                            assert(0 <= vol.strength <= 1000 && bounded(vol.direction, 1000));
                            let dx = vol.direction.x as int;
                            let dy = vol.direction.y as int;
                            let st = vol.strength as int;
                            assert(-(1000 * 50000) <= dx * 25 * (1000 + st) <= 1000 * 50000
                                && -(1000 * 50000) <= dy * 25 * (1000 + st) <= 1000
                                * 50000) by (nonlinear_arith)
                                requires
                                    -1000 <= dx <= 1000,
                                    -1000 <= dy <= 1000,
                                    0 <= st <= 1000,
                            ;
                            lemma_div_trunc_bound(dx * 25 * (1000 + st), 1000, 50000);
                            lemma_div_trunc_bound(dy * 25 * (1000 + st), 1000, 50000);
                        }
                        let kx = div_trunc64(vol.direction.x * 25 * (1000 + vol.strength), 1000);
                        let ky = div_trunc64(vol.direction.y * 25 * (1000 + vol.strength), 1000);
                        if !en.hitstun.is_set() {
                            health_events.push(
                                HealthChangeEvent { target: en.id, amount: -5000 - 5
                                    * vol.strength },
                            );
                        }
                        let mut hit = en;
                        hit.hitstun = Hitstun { timer: Timer::once(HITSTUN_MS) };
                        hit.velocity = Vec2i { x: kx, y: ky };
                        set_enemy(enemies, i, hit);
                    }
                },
                None => {},
            }
        }
        proof {
            assert(enemies@ =~= positive_step(pre, vols@, events@[k as int]).0);
        }
        k = k + 1;
    }
    health_events
}

/// Resolve a collision pair into (projectile index, volume index) for the
/// negative resolver; (-1, -1) when no reading fits.
pub open spec fn projectile_roles(
    projectiles: Seq<u64>,
    vols: Seq<(u64, WaveInterference)>,
    ev: CollisionEvent,
) -> (int, int) {
    let p1 = find_id(projectiles, ev.first);
    if p1 >= 0 {
        let v2 = find_volume(vols, ev.second);
        if v2 >= 0 {
            (p1, v2)
        } else {
            (-1, -1)
        }
    } else {
        let p2 = find_id(projectiles, ev.second);
        if p2 >= 0 {
            let v1 = find_volume(vols, ev.first);
            if v1 >= 0 {
                (p2, v1)
            } else {
                (-1, -1)
            }
        } else {
            (-1, -1)
        }
    }
}

/// One negative-resolver step: a started contact between an enemy
/// projectile and a negative volume destroys the projectile.
pub open spec fn negative_step(
    projectiles: Seq<u64>,
    vols: Seq<(u64, WaveInterference)>,
    ev: CollisionEvent,
) -> Option<u64> {
    if !ev.started {
        Option::None
    } else {
        let roles = projectile_roles(projectiles, vols, ev);
        if roles.0 >= 0 && vols[roles.1].1.kind == InterferenceKind::Negative {
            Option::Some(projectiles[roles.0])
        } else {
            Option::None
        }
    }
}

/// The ids the negative resolver despawns over the first `k` events.
pub open spec fn negative_fold(
    projectiles: Seq<u64>,
    vols: Seq<(u64, WaveInterference)>,
    evs: Seq<CollisionEvent>,
    k: int,
) -> Seq<u64>
    decreases k,
{
    if k <= 0 {
        Seq::empty()
    } else {
        let prev = negative_fold(projectiles, vols, evs, k - 1);
        match negative_step(projectiles, vols, evs[k - 1]) {
            Option::Some(id) => prev.push(id),
            Option::None => prev,
        }
    }
}

/// The negative-interference resolver: fold this tick's collision events
/// and return the enemy projectiles to destroy, in order.
pub fn negative_interference(
    projectiles: &Vec<u64>,
    vols: &Vec<(u64, WaveInterference)>,
    events: &Vec<CollisionEvent>,
) -> (despawned: Vec<u64>)
    ensures
        despawned@ == negative_fold(projectiles@, vols@, events@, events@.len() as int),
{
    let n = events.len();
    let mut despawned: Vec<u64> = Vec::new();
    let mut k: usize = 0;
    while k < n
        invariant
            k <= n,
            n == events@.len(),
            despawned@ == negative_fold(projectiles@, vols@, events@, k as int),
        decreases n - k,
    {
        let ev = events[k];
        if ev.started {
            match id_index(projectiles, ev.first) {
                Some(p) => {
                    match volume_index(vols, ev.second) {
                        Some(v) => {
                            if matches!(vols[v].1.kind, InterferenceKind::Negative) {
                                despawned.push(projectiles[p]);
                            }
                        },
                        None => {},
                    }
                },
                None => {
                    match id_index(projectiles, ev.second) {
                        Some(p) => {
                            match volume_index(vols, ev.first) {
                                Some(v) => {
                                    if matches!(vols[v].1.kind, InterferenceKind::Negative) {
                                        despawned.push(projectiles[p]);
                                    }
                                },
                                None => {},
                            }
                        },
                        None => {},
                    }
                },
            }
        }
        k = k + 1;
    }
    despawned
}

/// The per-tick safety sweep: clear every no-effect marker; containment
/// reasserts the live ones the same tick, so stray markers never outlive a
/// missed stop event.
pub fn cleanup_no_effect(enemies: &mut Vec<EnemyState>)
    ensures
        final(enemies)@.len() == old(enemies)@.len(),
        forall|i: int|
            0 <= i < old(enemies)@.len() ==> #[trigger] final(enemies)@[i] == (EnemyState {
                no_effect: false,
                ..old(enemies)@[i]
            }),
{
    let n = enemies.len();
    let mut k: usize = 0;
    while k < n
        invariant
            k <= n,
            n == enemies@.len(),
            n == old(enemies)@.len(),
            forall|i: int|
                0 <= i < k ==> #[trigger] enemies@[i] == (EnemyState {
                    no_effect: false,
                    ..old(enemies)@[i]
                }),
            forall|i: int| k <= i < n ==> #[trigger] enemies@[i] == old(enemies)@[i],
        decreases n - k,
    {
        let mut cleared = enemies[k];
        cleared.no_effect = false;
        set_enemy(enemies, k, cleared);
        k = k + 1;
    }
}


/// A non-negative first-match result is a real index and carries the id.
proof fn lemma_enemy_from_bounds(s: Seq<EnemyState>, id: u64, k: int)
    requires
        0 <= k,
    ensures
        enemy_from(s, id, k) == -1 || (k <= enemy_from(s, id, k) < s.len() && s[enemy_from(
            s,
            id,
            k,
        )].id == id),
    decreases s.len() - k,
{
    if k < s.len() && s[k].id != id {
        lemma_enemy_from_bounds(s, id, k + 1);
    }
}

/// First-match enemy lookup reads only the ids: two states of equal length

/// whose ids agree pointwise resolve every id to the same index.
proof fn lemma_enemy_from_same_ids(s1: Seq<EnemyState>, s2: Seq<EnemyState>, id: u64, k: int)
    requires
        s1.len() == s2.len(),
        forall|i: int| 0 <= i < s1.len() ==> (#[trigger] s1[i]).id == s2[i].id,
    ensures
        enemy_from(s1, id, k) == enemy_from(s2, id, k),
    decreases s1.len() - k,
{
    if 0 <= k < s1.len() {
        lemma_enemy_from_same_ids(s1, s2, id, k + 1);
    }
}

/// Immunity toggling round-trip law: an enemy that enters a destructive
/// volume carries the no-effect marker, and after the matching exit event
/// the marker is gone; no other field and no other enemy changes, so an
/// enemy that was not immune before is in exactly its prior state.
pub proof fn lemma_immunity_round_trip(
    enemies: Seq<EnemyState>,
    vols: Seq<(u64, WaveInterference)>,
    enter: CollisionEvent,
    exit: CollisionEvent,
)
    requires
        enter.started,
        !exit.started,
        enter.first == exit.first,
        enter.second == exit.second,
        find_enemy(enemies, enter.first) >= 0,
        find_volume(vols, enter.second) >= 0,
        vols[find_volume(vols, enter.second)].1.kind == InterferenceKind::Destructive,
    ensures
        ({
            let i = find_enemy(enemies, enter.first);
            let contained = destructive_step(enemies, vols, enter);
            let released = destructive_step(contained, vols, exit);
            contained[i].no_effect && !released[i].no_effect && released =~= enemies.update(
                i,
                EnemyState { no_effect: false, ..enemies[i] },
            ) && (!enemies[i].no_effect ==> released =~= enemies)
        }),
{
    let i = find_enemy(enemies, enter.first);
    lemma_enemy_from_bounds(enemies, enter.first, 0);
    assert(0 <= i < enemies.len());
    let contained = destructive_step(enemies, vols, enter);
    assert(contained =~= enemies.update(i, EnemyState { no_effect: true, ..enemies[i] }));
    assert(contained.len() == enemies.len());
    assert(forall|j: int|
        0 <= j < enemies.len() ==> (#[trigger] contained[j]).id == enemies[j].id);
    lemma_enemy_from_same_ids(contained, enemies, exit.first, 0);
    let released = destructive_step(contained, vols, exit);
    assert(released =~= enemies.update(i, EnemyState { no_effect: false, ..enemies[i] }));
    if !enemies[i].no_effect {
        assert(EnemyState { no_effect: false, ..enemies[i] } == enemies[i]);
        assert(released =~= enemies);
    }
}

/// Grace-period idempotence law: a positive hit on an enemy outside its
/// grace window deals damage and sets the knockback velocity; a second hit
/// within the window — any `dt_ms` later, shorter than the window — sets
/// the knockback velocity again but deals no damage.
pub proof fn lemma_grace_period_idempotence(
    enemies: Seq<EnemyState>,
    vols: Seq<(u64, WaveInterference)>,
    ev: CollisionEvent,
    dt_ms: u32,
)
    requires
        ev.started,
        dt_ms < HITSTUN_MS,
        positive_roles(enemies, vols, ev).0 >= 0,
        vols[positive_roles(enemies, vols, ev).1].1.kind == InterferenceKind::Positive,
        !enemies[positive_roles(enemies, vols, ev).0].hitstun.spec_is_set(),
    ensures
        ({
            let roles = positive_roles(enemies, vols, ev);
            let i = roles.0;
            let vol = vols[roles.1].1;
            let first = positive_step(enemies, vols, ev);
            let aged = first.0.update(
                i,
                EnemyState {
                    hitstun: Hitstun {
                        timer: Timer {
                            duration_ms: HITSTUN_MS,
                            elapsed_ms: dt_ms,
                            repeating: false,
                        },
                    },
                    ..first.0[i]
                },
            );
            let second = positive_step(aged, vols, ev);
            // the first contact deals damage and knocks back
            first.1 == Option::Some(
                HealthChangeEvent { target: enemies[i].id, amount: positive_damage(vol.strength) },
            ) && first.0[i].velocity == (Vec2i {
                x: knockback_x(vol.direction, vol.strength),
                y: knockback_y(vol.direction, vol.strength),
            })
            // the second contact within the window knocks back without damage
            && second.1 is None && second.0[i].velocity == (Vec2i {
                x: knockback_x(vol.direction, vol.strength),
                y: knockback_y(vol.direction, vol.strength),
            })
        }),
{
    let roles = positive_roles(enemies, vols, ev);
    let i = roles.0;
    lemma_enemy_from_bounds(enemies, ev.first, 0);
    lemma_enemy_from_bounds(enemies, ev.second, 0);
    assert(0 <= i < enemies.len());
    let first = positive_step(enemies, vols, ev);
    assert(first.0.len() == enemies.len());
    let aged = first.0.update(
        i,
        EnemyState {
            hitstun: Hitstun {
                timer: Timer { duration_ms: HITSTUN_MS, elapsed_ms: dt_ms, repeating: false },
            },
            ..first.0[i]
        },
    );
    assert(aged.len() == enemies.len());
    assert(forall|j: int| 0 <= j < enemies.len() ==> (#[trigger] aged[j]).id == enemies[j].id);
    assert(forall|j: int|
        0 <= j < enemies.len() ==> (#[trigger] aged[j]).no_effect == enemies[j].no_effect);
    lemma_enemy_from_same_ids(aged, enemies, ev.first, 0);
    lemma_enemy_from_same_ids(aged, enemies, ev.second, 0);
    // the ids and no-effect markers are untouched, so the roles resolve alike
    assert(positive_roles(aged, vols, ev) == roles);
    let second = positive_step(aged, vols, ev);
    assert(aged[i].hitstun.spec_is_set());
}

/// The touch damage an enemy-owned hitbox deals to the player, in
/// milli-hit-points, and whether the hitbox is spent by one hit.
#[derive(Clone, Copy, Debug, PartialEq, Eq, Structural)]
pub struct EnemyHitbox {
    pub damage: i64,
    pub once: bool,
}

/// Index of the first hitbox with the given id at or after `k`, or -1.
pub open spec fn hitbox_from(s: Seq<(u64, EnemyHitbox)>, id: u64, k: int) -> int
    decreases s.len() - k,
{
    if k < 0 || k >= s.len() {
        -1
    } else if s[k].0 == id {
        k
    } else {
        hitbox_from(s, id, k + 1)
    }
}

/// Index of the first hitbox with the given id, or -1.
pub open spec fn find_hitbox(s: Seq<(u64, EnemyHitbox)>, id: u64) -> int {
    hitbox_from(s, id, 0)
}

/// Look up the first hitbox with the given id.
fn hitbox_index(hitboxes: &Vec<(u64, EnemyHitbox)>, id: u64) -> (r: Option<usize>)
    ensures
        match r {
            Some(i) => 0 <= i < hitboxes@.len() && find_hitbox(hitboxes@, id) == i as int,
            None => find_hitbox(hitboxes@, id) == -1,
        },
{
    let n = hitboxes.len();
    let mut k: usize = 0;
    while k < n
        invariant
            k <= n,
            n == hitboxes@.len(),
            find_hitbox(hitboxes@, id) == hitbox_from(hitboxes@, id, k as int),
        decreases n - k,
    {
        if hitboxes[k].0 == id {
            return Some(k);
        }
        k = k + 1;
    }
    None
}

/// One player-damage step: a started contact between an enemy hitbox and
/// the player charges the hitbox's damage to the player; a one-shot hitbox
/// is despawned by the hit.
pub open spec fn player_hit_step(
    hitboxes: Seq<(u64, EnemyHitbox)>,
    player: u64,
    ev: CollisionEvent,
) -> Option<(HealthChangeEvent, Option<u64>)> {
    if !ev.started {
        Option::None
    } else {
        let h1 = find_hitbox(hitboxes, ev.first);
        let hit: int = if h1 >= 0 {
            if ev.second == player {
                h1
            } else {
                -1
            }
        } else {
            let h2 = find_hitbox(hitboxes, ev.second);
            if h2 >= 0 && ev.first == player {
                h2
            } else {
                -1
            }
        };
        if hit >= 0 {
            let hb = hitboxes[hit].1;
            Option::Some(
                (
                    HealthChangeEvent { target: player, amount: (-hb.damage) as i64 },
                    if hb.once {
                        Option::Some(hitboxes[hit].0)
                    } else {
                        Option::None
                    },
                ),
            )
        } else {
            Option::None
        }
    }
}

/// The player-damage resolver folded over the first `k` events: the health
/// changes charged to the player and the spent hitboxes to despawn.
pub open spec fn player_hit_fold(
    hitboxes: Seq<(u64, EnemyHitbox)>,
    player: u64,
    evs: Seq<CollisionEvent>,
    k: int,
) -> (Seq<HealthChangeEvent>, Seq<u64>)
    decreases k,
{
    if k <= 0 {
        (Seq::empty(), Seq::empty())
    } else {
        let prev = player_hit_fold(hitboxes, player, evs, k - 1);
        match player_hit_step(hitboxes, player, evs[k - 1]) {
            Option::Some(hit) => (
                prev.0.push(hit.0),
                match hit.1 {
                    Option::Some(id) => prev.1.push(id),
                    Option::None => prev.1,
                },
            ),
            Option::None => prev,
        }
    }
}

/// The player-damage resolver: fold this tick's collision events between
/// enemy hitboxes and the player, charging each hitbox's damage and
/// despawning the one-shot hitboxes that connected.
pub fn enemy_damage(
    hitboxes: &Vec<(u64, EnemyHitbox)>,
    player: u64,
    events: &Vec<CollisionEvent>,
) -> (r: (Vec<HealthChangeEvent>, Vec<u64>))
    requires
        forall|i: int| 0 <= i < hitboxes@.len() ==> (#[trigger] hitboxes@[i]).1.damage > i64::MIN,
    ensures
        r.0@ == player_hit_fold(hitboxes@, player, events@, events@.len() as int).0,
        r.1@ == player_hit_fold(hitboxes@, player, events@, events@.len() as int).1,
{
    let n = events.len();
    let mut health_events: Vec<HealthChangeEvent> = Vec::new();
    let mut despawned: Vec<u64> = Vec::new();
    let mut k: usize = 0;
    while k < n
        invariant
            k <= n,
            n == events@.len(),
            forall|i: int|
                0 <= i < hitboxes@.len() ==> (#[trigger] hitboxes@[i]).1.damage > i64::MIN,
            health_events@ == player_hit_fold(hitboxes@, player, events@, k as int).0,
            despawned@ == player_hit_fold(hitboxes@, player, events@, k as int).1,
        decreases n - k,
    {
        let ev = events[k];
        if ev.started {
            let mut hit: Option<usize> = None;
            match hitbox_index(hitboxes, ev.first) {
                Some(h) => {
                    if ev.second == player {
                        hit = Some(h);
                    }
                },
                None => {
                    match hitbox_index(hitboxes, ev.second) {
                        Some(h) => {
                            if ev.first == player {
                                hit = Some(h);
                            }
                        },
                        None => {},
                    }
                },
            }
            match hit {
                Some(h) => {
                    let hb = hitboxes[h].1;
                    health_events.push(HealthChangeEvent { target: player, amount: -hb.damage });
                    if hb.once {
                        despawned.push(hitboxes[h].0);
                    }
                },
                None => {},
            }
        }
        k = k + 1;
    }
    (health_events, despawned)
}

/// An entity the area band of a wave may act on: identity, world position,
/// and whether a no-effect marker suppresses it this tick.
#[derive(Clone, Copy, Debug, PartialEq, Eq, Structural)]
pub struct BandTarget {
    pub id: u64,
    pub position: Vec2i,
    pub suppressed: bool,
}

/// The position lies inside the wave's visual band: its distance from the
/// wave center differs from the radius by less than the stroke width
/// `2 + 30 * (radius / max_radius)^2` world units — decided exactly on
/// squared distances.
pub open spec fn in_band(origin: Vec2i, w: Wave, pos: Vec2i) -> bool {
    let d2 = dist_sq(origin, pos);
    let b = 2000 + 30 * age_sq_permille(w.radius as int, w.max_radius as int);
    d2 < (w.radius + b) * (w.radius + b) && (w.radius - b < 0 || d2 > (w.radius - b) * (w.radius
        - b))
}

/// Whether a point sits inside the wave's current band.
pub fn wave_band_contains(origin: &Vec2i, w: &Wave, pos: &Vec2i) -> (r: bool)
    requires
        w.wf(),
        bounded(*origin, COORD_LIMIT as int),
        bounded(*pos, COORD_LIMIT as int),
    ensures
        r == in_band(*origin, *w, *pos),
{
    let d2: i64 = origin.dist_sq_to(pos);
    let b: i64 = w.stroke_width();
    let outer: i64 = w.radius + b;
    let inner: i64 = w.radius - b;
    proof {
        assert(0 <= outer * outer <= 0x4000_0000_0000_0000 && -0x4000_0000_0000_0000 <= inner
            * inner <= 0x4000_0000_0000_0000) by (nonlinear_arith)
            requires
                0 <= outer <= COORD_LIMIT + 32000,
                -32000 <= inner <= COORD_LIMIT,
        ;
    }
    d2 < outer * outer && (inner < 0 || d2 > inner * inner)
}

/// The health changes a positive wave's band deals this tick over the
/// first `k` targets: continuous damage of 10 hit points per second to
/// every unsuppressed target inside the band.
pub open spec fn band_damage_fold(
    origin: Vec2i,
    w: Wave,
    targets: Seq<BandTarget>,
    dt_ms: u32,
    k: int,
) -> Seq<HealthChangeEvent>
    decreases k,
{
    if k <= 0 {
        Seq::empty()
    } else {
        let prev = band_damage_fold(origin, w, targets, dt_ms, k - 1);
        let t = targets[k - 1];
        if !t.suppressed && in_band(origin, w, t.position) {
            prev.push(HealthChangeEvent { target: t.id, amount: (-10 * dt_ms) as i64 })
        } else {
            prev
        }
    }
}

/// The area-damage resolver for a positive wave: every unsuppressed enemy
/// inside the wave's band takes continuous damage scaled by the tick.
pub fn area_damage(
    origin: &Vec2i,
    w: &Wave,
    targets: &Vec<BandTarget>,
    dt_ms: u32,
) -> (health_events: Vec<HealthChangeEvent>)
    requires
        w.wf(),
        bounded(*origin, COORD_LIMIT as int),
        dt_ms <= DT_LIMIT,
        forall|i: int|
            0 <= i < targets@.len() ==> bounded((#[trigger] targets@[i]).position, COORD_LIMIT as int),
    ensures
        health_events@ == band_damage_fold(*origin, *w, targets@, dt_ms, targets@.len() as int),
{
    let n = targets.len();
    let mut health_events: Vec<HealthChangeEvent> = Vec::new();
    let mut k: usize = 0;
    while k < n
        invariant
            k <= n,
            n == targets@.len(),
            w.wf(),
            bounded(*origin, COORD_LIMIT as int),
            dt_ms <= DT_LIMIT,
            forall|i: int|
                0 <= i < targets@.len() ==> bounded(
                    (#[trigger] targets@[i]).position,
                    COORD_LIMIT as int,
                ),
            health_events@ == band_damage_fold(*origin, *w, targets@, dt_ms, k as int),
        decreases n - k,
    {
        let t = targets[k];
        if !t.suppressed && wave_band_contains(origin, w, &t.position) {
            health_events.push(HealthChangeEvent { target: t.id, amount: -10 * (dt_ms as i64) });
        }
        k = k + 1;
    }
    health_events
}

/// X of the outward nudge a negative wave's band gives a projectile:
/// `normalize(pos - origin) * 10 * dt / 1000` milliunits per second.
pub open spec fn band_impulse_x(origin: Vec2i, pos: Vec2i, dt_ms: u32) -> i64 {
    div_trunc(norm_x(pos.x - origin.x, pos.y - origin.y) * 10 * dt_ms, 1000) as i64
}

/// Y of the outward nudge; see [`band_impulse_x`].
pub open spec fn band_impulse_y(origin: Vec2i, pos: Vec2i, dt_ms: u32) -> i64 {
    div_trunc(norm_y(pos.x - origin.x, pos.y - origin.y) * 10 * dt_ms, 1000) as i64
}

/// The velocity deltas a negative wave's band applies this tick over the
/// first `k` targets: an outward push away from the wave center on every
/// unsuppressed projectile inside the band.
pub open spec fn band_impulse_fold(
    origin: Vec2i,
    w: Wave,
    targets: Seq<BandTarget>,
    dt_ms: u32,
    k: int,
) -> Seq<(u64, Vec2i)>
    decreases k,
{
    if k <= 0 {
        Seq::empty()
    } else {
        let prev = band_impulse_fold(origin, w, targets, dt_ms, k - 1);
        let t = targets[k - 1];
        if !t.suppressed && in_band(origin, w, t.position) {
            prev.push(
                (
                    t.id,
                    Vec2i {
                        x: band_impulse_x(origin, t.position, dt_ms),
                        y: band_impulse_y(origin, t.position, dt_ms),
                    },
                ),
            )
        } else {
            prev
        }
    }
}

/// The area-impulse resolver for a negative wave: every unsuppressed enemy
/// projectile inside the wave's band is nudged outward, away from the wave
/// center, scaled by the tick.
pub fn area_impulse(
    origin: &Vec2i,
    w: &Wave,
    targets: &Vec<BandTarget>,
    dt_ms: u32,
) -> (deltas: Vec<(u64, Vec2i)>)
    requires
        w.wf(),
        bounded(*origin, COORD_LIMIT as int),
        dt_ms <= DT_LIMIT,
        forall|i: int|
            0 <= i < targets@.len() ==> bounded((#[trigger] targets@[i]).position, COORD_LIMIT as int),
    ensures
        deltas@ == band_impulse_fold(*origin, *w, targets@, dt_ms, targets@.len() as int),
{
    let n = targets.len();
    let mut deltas: Vec<(u64, Vec2i)> = Vec::new();
    let mut k: usize = 0;
    while k < n
        invariant
            k <= n,
            n == targets@.len(),
            w.wf(),
            bounded(*origin, COORD_LIMIT as int),
            dt_ms <= DT_LIMIT,
            forall|i: int|
                0 <= i < targets@.len() ==> bounded(
                    (#[trigger] targets@[i]).position,
                    COORD_LIMIT as int,
                ),
            deltas@ == band_impulse_fold(*origin, *w, targets@, dt_ms, k as int),
        decreases n - k,
    {
        let t = targets[k];
        if !t.suppressed && wave_band_contains(origin, w, &t.position) {
            let away = Vec2i { x: t.position.x - origin.x, y: t.position.y - origin.y };
            let norm = away.normalize_permille();
            proof {
                let nx = norm.x as int;
                let ny = norm.y as int;
                let d = dt_ms as int;
                assert(-(1000 * 10000) <= nx * 10 * d <= 1000 * 10000 && -(1000 * 10000) <= ny
                    * 10 * d <= 1000 * 10000) by (nonlinear_arith)
                    requires
                        -1000 <= nx <= 1000,
                        -1000 <= ny <= 1000,
                        0 <= d <= DT_LIMIT,
                ;
                lemma_div_trunc_bound(nx * 10 * d, 1000, 10000);
                lemma_div_trunc_bound(ny * 10 * d, 1000, 10000);
            }
            let ix = div_trunc64(norm.x * 10 * (dt_ms as i64), 1000);
            let iy = div_trunc64(norm.y * 10 * (dt_ms as i64), 1000);
            deltas.push((t.id, Vec2i { x: ix, y: iy }));
        }
        k = k + 1;
    }
    deltas
}

} // verus!
