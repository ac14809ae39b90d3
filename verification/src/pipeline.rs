//! The fixed per-tick schedule, one driver per phase, so the required
//! ordering is part of the contract: the wave field advances, resolves its
//! deferred spawns, detects interference and materializes volumes in that
//! order; and the collision resolvers run with the destructive resolver
//! first, so immunity toggled this tick is visible to the damage logic of
//! the same tick.

use crate::effects::{destructive_fold, destructive_interference, enemy_damage, negative_fold,
    negative_interference, player_hit_fold, positive_fold, positive_interference, vols_wf,
    CollisionEvent, EnemyHitbox, EnemyState};
use crate::geom::{bounded, Vec2i};
use crate::health::HealthChangeEvent;
use crate::interference::{detect_interference, pair_events_at, rows_count, WaveInterferenceEvent,
    LOCUS_LIMIT};
use crate::num::COORD_LIMIT;
use crate::volume::{age_volumes, aged_volumes, materialized, InterferenceVolume,
    WaveInterference};
use crate::wave::{advance_waves, advanced_waves, resolve_delayed, ticked_delayed, DelayedWave,
    Wave, DT_LIMIT};
use vstd::prelude::*;

verus! {

/// Everything one resolver pass hands back to the host: damage requests,
/// projectiles annihilated by negative volumes, and touch hitboxes spent
/// against the player.
pub struct ResolverOutcome {
    pub health_events: Vec<HealthChangeEvent>,
    pub destroyed_projectiles: Vec<u64>,
    pub spent_hitboxes: Vec<u64>,
}

/// One resolver pass over this tick's collision events, in the required
/// order: the destructive resolver toggles immunity first; the positive
/// resolver then damages and knocks back against that fresh immunity; the
/// negative and touch resolvers (which read no enemy state) run after. The
/// emitted health changes carry the positive hits first, then the touch
/// hits.
pub fn resolve_tick(
    enemies: &mut Vec<EnemyState>,
    vols: &Vec<(u64, WaveInterference)>,
    projectiles: &Vec<u64>,
    hitboxes: &Vec<(u64, EnemyHitbox)>,
    player: u64,
    collisions: &Vec<CollisionEvent>,
) -> (r: ResolverOutcome)
    requires
        vols_wf(vols@),
        forall|i: int| 0 <= i < hitboxes@.len() ==> (#[trigger] hitboxes@[i]).1.damage > i64::MIN,
    ensures
        ({
            let n = collisions@.len() as int;
            let contained = destructive_fold(old(enemies)@, vols@, collisions@, n);
            let struck = positive_fold(contained, vols@, collisions@, n);
            let touched = player_hit_fold(hitboxes@, player, collisions@, n);
            &&& final(enemies)@ == struck.0
            &&& r.health_events@ == struck.1 + touched.0
            &&& r.destroyed_projectiles@ == negative_fold(projectiles@, vols@, collisions@, n)
            &&& r.spent_hitboxes@ == touched.1
        }),
{
    destructive_interference(enemies, vols, collisions);
    let mut health_events = positive_interference(enemies, vols, collisions);
    let destroyed_projectiles = negative_interference(projectiles, vols, collisions);
    let (mut touch_events, spent_hitboxes) = enemy_damage(hitboxes, player, collisions);
    health_events.append(&mut touch_events);
    ResolverOutcome { health_events, destroyed_projectiles, spent_hitboxes }
}

/// The deferred waves that came due, joining the census as live waves
/// under ids counted up from `base`: the first `k` of them.
pub open spec fn spawned_prefix(due: Seq<DelayedWave>, base: int, k: int) -> Seq<
    (u64, Vec2i, Wave),
>
    decreases k,
{
    if k <= 0 {
        Seq::empty()
    } else {
        spawned_prefix(due, base, k - 1).push(
            ((base + k - 1) as u64, due[k - 1].position, due[k - 1].wave),
        )
    }
}

/// The detector's events materialized into volumes under ids counted up
/// from `base`: the first `k` of them.
pub open spec fn keyed_prefix(events: Seq<WaveInterferenceEvent>, base: int, k: int) -> Seq<
    (u64, InterferenceVolume),
>
    decreases k,
{
    if k <= 0 {
        Seq::empty()
    } else {
        keyed_prefix(events, base, k - 1).push(
            ((base + k - 1) as u64, materialized(events[k - 1])),
        )
    }
}

/// The first `k` census entries with their ids dropped: what the detector
/// scans.
pub open spec fn field_prefix(s: Seq<(u64, Vec2i, Wave)>, k: int) -> Seq<(Vec2i, Wave)>
    decreases k,
{
    if k <= 0 {
        Seq::empty()
    } else {
        field_prefix(s, k - 1).push((s[k - 1].1, s[k - 1].2))
    }
}

/// What one wave-field phase leaves behind: the live census, the still
/// pending deferred waves, the live volumes (aged survivors then the
/// freshly materialized ones), the detector's event stream, and the id
/// counter after the new entities took theirs.
pub struct WaveFieldOutcome {
    pub waves: Vec<(u64, Vec2i, Wave)>,
    pub delayed: Vec<DelayedWave>,
    pub volumes: Vec<(u64, InterferenceVolume)>,
    pub events: Vec<WaveInterferenceEvent>,
    pub next_id: u64,
}

/// One wave-field phase, in the required order: advancement grows and
/// culls the waves, the deferred spawner resolves due waves into the
/// census, the detector scans every unordered pair of the resulting
/// census, and the materializer turns each event into a keyed volume
/// appended after the aged survivors.
pub fn wave_field_tick(
    waves: &Vec<(u64, Vec2i, Wave)>,
    delayed: &Vec<DelayedWave>,
    volumes: &Vec<(u64, InterferenceVolume)>,
    next_id: u64,
    dt_ms: u32,
) -> (r: WaveFieldOutcome)
    requires
        dt_ms <= DT_LIMIT,
        next_id + delayed@.len() + 2 * (waves@.len() + delayed@.len()) * (waves@.len()
            + delayed@.len()) < u64::MAX,
        forall|i: int|
            0 <= i < waves@.len() ==> (#[trigger] waves@[i]).2.wf() && bounded(
                waves@[i].1,
                COORD_LIMIT as int,
            ),
        forall|i: int|
            0 <= i < delayed@.len() ==> (#[trigger] delayed@[i]).wave.wf() && bounded(
                delayed@[i].position,
                COORD_LIMIT as int,
            ) && delayed@[i].delay_timer.wf() && !delayed@[i].delay_timer.repeating,
        forall|i: int|
            0 <= i < volumes@.len() ==> (#[trigger] volumes@[i]).1.lifespan.timer.wf()
                && !volumes@[i].1.lifespan.timer.repeating,
    ensures
        ({
            let grown = advanced_waves(waves@, dt_ms as int, waves@.len() as int);
            let split = ticked_delayed(delayed@, dt_ms as int, delayed@.len() as int);
            let due = split.1;
            &&& r.waves@ == grown + spawned_prefix(due, next_id as int, due.len() as int)
            &&& r.delayed@ == split.0
            &&& r.events@.len() == rows_count(
                field_prefix(r.waves@, r.waves@.len() as int),
                r.waves@.len() as int,
            )
            &&& forall|i: int, j: int|
                0 <= i < j < r.waves@.len() ==> #[trigger] pair_events_at(
                    r.events@,
                    field_prefix(r.waves@, r.waves@.len() as int),
                    i,
                    j,
                )
            &&& r.volumes@ == aged_volumes(volumes@, dt_ms as int, volumes@.len() as int)
                + keyed_prefix(r.events@, next_id as int + due.len(), r.events@.len() as int)
            &&& r.next_id == next_id + due.len() + r.events@.len()
        }),
{
    // stage one: advancement grows every wave and culls the expired
    let mut census = advance_waves(waves, dt_ms);
    // stage two: due deferred waves join the census under fresh ids
    let (waiting, due) = resolve_delayed(delayed, dt_ms);
    let ghost grown = census@;
    let mut id: u64 = next_id;
    let due_count = due.len();
    proof {
        lemma_advanced_waves_len(waves@, dt_ms as int, waves@.len() as int);
        lemma_ticked_delayed_len(delayed@, dt_ms as int, delayed@.len() as int);
        lemma_ticked_delayed_wf(delayed@, dt_ms as int, delayed@.len() as int);
    }
    let mut k: usize = 0;
    while k < due_count
        invariant
            k <= due_count,
            due_count == due@.len(),
            due@.len() <= delayed@.len(),
            id == next_id + k,
            next_id + delayed@.len() < u64::MAX,
            census@ == grown + spawned_prefix(due@, next_id as int, k as int),
            census@.len() == grown.len() + k,
            forall|i: int|
                0 <= i < due@.len() ==> (#[trigger] due@[i]).wave.wf() && bounded(
                    due@[i].position,
                    COORD_LIMIT as int,
                ),
            forall|i: int|
                0 <= i < grown.len() ==> (#[trigger] grown[i]).2.wf() && bounded(
                    grown[i].1,
                    COORD_LIMIT as int,
                ),
            forall|i: int|
                0 <= i < census@.len() ==> (#[trigger] census@[i]).2.wf() && bounded(
                    census@[i].1,
                    COORD_LIMIT as int,
                ),
        decreases due_count - k,
    {
        let d = due[k];
        census.push((id, d.position, d.wave));
        id = id + 1;
        k = k + 1;
    }
    // stage three: the detector scans every unordered pair of the census
    let n = census.len();
    let mut field: Vec<(Vec2i, Wave)> = Vec::new();
    let mut k: usize = 0;
    while k < n
        invariant
            k <= n,
            n == census@.len(),
            field@ == field_prefix(census@, k as int),
            field@.len() == k,
            forall|i: int|
                0 <= i < census@.len() ==> (#[trigger] census@[i]).2.wf() && bounded(
                    census@[i].1,
                    COORD_LIMIT as int,
                ),
            forall|i: int|
                0 <= i < field@.len() ==> (#[trigger] field@[i]).1.wf() && bounded(
                    field@[i].0,
                    COORD_LIMIT as int,
                ),
        decreases n - k,
    {
        let entry = census[k];
        field.push((entry.1, entry.2));
        k = k + 1;
    }
    let events = detect_interference(&field);
    // stage four: the materializer turns each event into a keyed volume
    let mut vols = age_volumes(volumes, dt_ms);
    let ghost aged = vols@;
    let event_count = events.len();
    proof {
        lemma_events_bounded(events@, field@);
        let c = census@.len() as int;
        let t = waves@.len() + delayed@.len() as int;
        assert(c <= t);
        assert(2 * c * c <= 2 * t * t) by (nonlinear_arith)
            requires
                0 <= c <= t,
        ;
    }
    let mut k: usize = 0;
    while k < event_count
        invariant
            k <= event_count,
            event_count == events@.len(),
            id as int == next_id + due@.len() + k,
            id + events@.len() - k < u64::MAX,
            vols@ == aged + keyed_prefix(events@, next_id as int + due@.len() as int, k as int),
            forall|i: int|
                0 <= i < events@.len() ==> bounded(
                    (#[trigger] events@[i]).position,
                    LOCUS_LIMIT as int,
                ) && bounded(events@[i].direction, 1000) && 0 < events@[i].strength <= 1000,
        decreases event_count - k,
    {
        let v = InterferenceVolume::materialize(&events[k]);
        vols.push((id, v));
        id = id + 1;
        k = k + 1;
    }
    WaveFieldOutcome { waves: census, delayed: waiting, volumes: vols, events, next_id: id }
}

/// An advancement pass never lengthens the census.
proof fn lemma_advanced_waves_len(s: Seq<(u64, Vec2i, Wave)>, dt_ms: int, k: int)
    requires
        0 <= k <= s.len(),
    ensures
        advanced_waves(s, dt_ms, k).len() <= k,
    decreases k,
{
    if k > 0 {
        lemma_advanced_waves_len(s, dt_ms, k - 1);
    }
}

/// A countdown pass splits the pending list without inventing entries.
proof fn lemma_ticked_delayed_len(s: Seq<DelayedWave>, dt_ms: int, k: int)
    requires
        0 <= k <= s.len(),
    ensures
        ticked_delayed(s, dt_ms, k).0.len() + ticked_delayed(s, dt_ms, k).1.len() == k,
    decreases k,
{
    if k > 0 {
        lemma_ticked_delayed_len(s, dt_ms, k - 1);
    }
}

/// Due entries keep their payload and placement, so they stay fit to join
/// the census.
proof fn lemma_ticked_delayed_wf(s: Seq<DelayedWave>, dt_ms: int, k: int)
    requires
        0 <= k <= s.len(),
        forall|i: int|
            0 <= i < s.len() ==> (#[trigger] s[i]).wave.wf() && bounded(
                s[i].position,
                COORD_LIMIT as int,
            ),
    ensures
        forall|i: int|
            0 <= i < ticked_delayed(s, dt_ms, k).1.len() ==> (#[trigger] ticked_delayed(
                s,
                dt_ms,
                k,
            ).1[i]).wave.wf() && bounded(ticked_delayed(s, dt_ms, k).1[i].position, COORD_LIMIT as int),
    decreases k,
{
    if k > 0 {
        lemma_ticked_delayed_wf(s, dt_ms, k - 1);
    }
}

/// The detector's event count is bounded by twice the squared census size.
proof fn lemma_events_bounded(events: Seq<WaveInterferenceEvent>, field: Seq<(Vec2i, Wave)>)
    requires
        events.len() == rows_count(field, field.len() as int),
    ensures
        events.len() <= 2 * field.len() * field.len(),
{
    lemma_rows_count_bound(field, field.len() as int);
    assert(2 * field.len() * (field.len() as int) <= 2 * field.len() * field.len())
        by (nonlinear_arith);
}

/// Row totals grow at most two per pair.
proof fn lemma_rows_count_bound(s: Seq<(Vec2i, Wave)>, i: int)
    requires
        0 <= i <= s.len(),
    ensures
        rows_count(s, i) <= 2 * s.len() * i,
    decreases i,
{
    if i > 0 {
        lemma_rows_count_bound(s, i - 1);
        lemma_row_count_bound(s, i - 1, s.len() as int);
        assert(2 * s.len() * (i - 1) + 2 * s.len() <= 2 * s.len() * i) by (nonlinear_arith)
            requires
                i >= 1,
        ;
    }
}

/// One row contributes at most two events per partner.
proof fn lemma_row_count_bound(s: Seq<(Vec2i, Wave)>, i: int, j: int)
    requires
        i + 1 <= j,
    ensures
        crate::interference::row_count(s, i, j) <= 2 * (j - i - 1),
    decreases j - i,
{
    if j > i + 1 {
        lemma_row_count_bound(s, i, j - 1);
    }
}

} // verus!
