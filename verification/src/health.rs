//! Health in milli-hit-points: signed health-change events, clamping at the
//! maximum, and death below zero.

use vstd::prelude::*;

verus! {

/// Index of the first pool owned by `id` at or after `k`, or -1.
pub open spec fn pool_from(s: Seq<(u64, Health)>, id: u64, k: int) -> int
    decreases s.len() - k,
{
    if k < 0 || k >= s.len() {
        -1
    } else if s[k].0 == id {
        k
    } else {
        pool_from(s, id, k + 1)
    }
}

/// Index of the first pool owned by `id`, or -1.
pub open spec fn find_pool(s: Seq<(u64, Health)>, id: u64) -> int {
    pool_from(s, id, 0)
}

/// Upper bound on a health pool or a single change, in milli-hit-points.
pub const HEALTH_LIMIT: i64 = 1_000_000_000;

/// A health pool. `current` may go negative for one tick, at which point
/// the owner is despawned.
#[derive(Clone, Copy, Debug, PartialEq, Eq, Structural)]
pub struct Health {
    pub current: i64,
    pub max: i64,
}

/// A request to apply a signed health delta to an entity.
#[derive(Clone, Copy, Debug, PartialEq, Eq, Structural)]
pub struct HealthChangeEvent {
    pub target: u64,
    pub amount: i64,
}

impl Health {
    /// The pool is bounded and never above its maximum.
    pub open spec fn wf(self) -> bool {
        1 <= self.max <= HEALTH_LIMIT && -HEALTH_LIMIT <= self.current <= self.max
    }

    /// A full pool of `max` milli-hit-points.
    pub fn new(max: i64) -> (r: Health)
        requires
            1 <= max <= HEALTH_LIMIT,
        ensures
            r == (Health { current: max, max }),
            r.wf(),
    {
        Health { current: max, max }
    }

    /// The filled fraction of the pool in permille, zero when drained.
    pub fn percentage(&self) -> (r: i64)
        requires
            self.wf(),
        ensures
            self.current <= 0 ==> r == 0,
            self.current > 0 ==> r == self.current * 1000 / (self.max as int),
            0 <= r <= 1000,
    {
        if self.current <= 0 {
            0
        } else {
            proof {
                let c = self.current as int;
                let m = self.max as int;
                assert(0 <= c * 1000 <= m * 1000 && m * 1000 <= 0x4000_0000_0000_0000) by (nonlinear_arith)
                    requires
                        0 < c <= m <= HEALTH_LIMIT,
                ;
                vstd::arithmetic::div_mod::lemma_div_is_ordered(c * 1000, m * 1000, m);
                vstd::arithmetic::div_mod::lemma_div_multiples_vanish(1000, m);
                vstd::arithmetic::div_mod::lemma_div_pos_is_pos(c * 1000, m);
            }
            ((self.current as u64 * 1000) / (self.max as u64)) as i64
        }
    }

    /// Apply one signed change: the pool clamps at its maximum, and the
    /// call reports death exactly when the changed value sank below zero.
    pub fn apply(&mut self, amount: i64) -> (dead: bool)
        requires
            old(self).wf(),
            -HEALTH_LIMIT <= amount <= HEALTH_LIMIT,
        ensures
            final(self).max == old(self).max,
            final(self).current == if old(self).current + amount > old(self).max {
                old(self).max as int
            } else {
                old(self).current + amount
            },
            dead == (old(self).current + amount < 0),
            final(self).wf() || dead,
            final(self).current >= 0 ==> final(self).wf(),
    {
        let sum: i64 = self.current + amount;
        if sum > self.max {
            self.current = self.max;
        } else {
            self.current = sum;
        }
        self.current < 0
    }
}

/// The HUD bar over an entity: its full width in milliunits and the filled
/// fraction in permille.
#[derive(Clone, Copy, Debug, PartialEq, Eq, Structural)]
pub struct HealthBar {
    pub width: i64,
    pub fraction: i64,
}

impl HealthBar {
    /// A full bar of the given width.
    pub fn new(width: i64) -> (r: HealthBar)
        requires
            1 <= width <= 1_000_000,
        ensures
            r == (HealthBar { width, fraction: 1000int as i64 }),
    {
        HealthBar { width, fraction: 1000 }
    }

    /// Track a pool's filled fraction.
    pub fn update(&mut self, fraction: i64)
        requires
            0 <= fraction <= 1000,
        ensures
            final(self).width == old(self).width,
            final(self).fraction == fraction,
    {
        self.fraction = fraction;
    }

    /// The drawn width of the filled part, in milliunits.
    pub fn filled_width(&self) -> (r: i64)
        requires
            1 <= self.width <= 1_000_000,
            0 <= self.fraction <= 1000,
        ensures
            r == self.width * self.fraction / 1000,
            0 <= r <= self.width,
    {
        proof {
            let w = self.width as int;
            let f = self.fraction as int;
            assert(0 <= w * f <= w * 1000 && w * 1000 <= 0x4000_0000_0000_0000) by (nonlinear_arith)
                requires
                    1 <= w <= 1_000_000,
                    0 <= f <= 1000,
            ;
            vstd::arithmetic::div_mod::lemma_div_is_ordered(w * f, w * 1000, 1000);
            vstd::arithmetic::div_mod::lemma_div_pos_is_pos(w * f, 1000);
            vstd::arithmetic::div_mod::lemma_div_multiples_vanish(w, 1000);
        }
        self.width * self.fraction / 1000
    }

    /// How far the filled part's center is shifted from the entity center,
    /// in milliunits: `width * (fraction - 1) / 2` keeps the filled part
    /// left-anchored as it shrinks.
    pub fn center_offset(&self) -> (r: i64)
        requires
            1 <= self.width <= 1_000_000,
            0 <= self.fraction <= 1000,
        ensures
            r == crate::num::div_trunc(self.width * (self.fraction - 1000), 2000),
            -(self.width as int) <= r <= 0,
    {
        proof {
            let w = self.width as int;
            let f = self.fraction as int;
            assert(-(2000 * w) <= w * (f - 1000) <= 0 && w * (f - 1000) >= -0x4000_0000_0000_0000) by (nonlinear_arith)
                requires
                    1 <= w <= 1_000_000,
                    0 <= f <= 1000,
            ;
            crate::num::lemma_div_trunc_bound(w * (f - 1000), 2000, w);
            if w * (f - 1000) < 0 {
                vstd::arithmetic::div_mod::lemma_div_pos_is_pos(-(w * (f - 1000)), 2000);
            }
        }
        crate::num::div_trunc64(self.width * (self.fraction - 1000), 2000)
    }
}

/// One health-change step: the targeted pool takes the delta, clamped at
/// its maximum above and at `-HEALTH_LIMIT` below (an overflow floor a
/// dying pool never meaningfully reaches); the owner dies when the changed
/// value sank below zero. A change whose target owns no pool does nothing.
pub open spec fn health_step(pools: Seq<(u64, Health)>, ev: HealthChangeEvent) -> (
    Seq<(u64, Health)>,
    Option<u64>,
) {
    let i = find_pool(pools, ev.target);
    if i >= 0 {
        let pool = pools[i].1;
        let summed = if pool.current + ev.amount > pool.max {
            pool.max as int
        } else {
            pool.current + ev.amount
        };
        let changed = if summed < -HEALTH_LIMIT {
            -HEALTH_LIMIT as int
        } else {
            summed
        };
        (
            pools.update(i, (ev.target, Health { current: changed as i64, max: pool.max })),
            if pool.current + ev.amount < 0 {
                Option::Some(ev.target)
            } else {
                Option::None
            },
        )
    } else {
        (pools, Option::None)
    }
}

/// The health resolver folded over the first `k` changes: the pools after
/// them and the owners that died, in order.
pub open spec fn health_fold(
    pools: Seq<(u64, Health)>,
    evs: Seq<HealthChangeEvent>,
    k: int,
) -> (Seq<(u64, Health)>, Seq<u64>)
    decreases k,
{
    if k <= 0 {
        (pools, Seq::empty())
    } else {
        let prev = health_fold(pools, evs, k - 1);
        let step = health_step(prev.0, evs[k - 1]);
        (
            step.0,
            match step.1 {
                Option::Some(id) => prev.1.push(id),
                Option::None => prev.1,
            },
        )
    }
}

/// Every pool is well formed.
pub open spec fn pools_wf(pools: Seq<(u64, Health)>) -> bool {
    forall|i: int| 0 <= i < pools.len() ==> (#[trigger] pools[i]).1.wf()
}

/// A non-negative first-match result is a real index and carries the id.
proof fn lemma_pool_from_bounds(s: Seq<(u64, Health)>, id: u64, k: int)
    requires
        0 <= k,
    ensures
        pool_from(s, id, k) == -1 || (k <= pool_from(s, id, k) < s.len() && s[pool_from(
            s,
            id,
            k,
        )].0 == id),
    decreases s.len() - k,
{
    if k < s.len() && s[k].0 != id {
        lemma_pool_from_bounds(s, id, k + 1);
    }
}

/// Look up the first pool owned by `id`.
fn pool_index(pools: &Vec<(u64, Health)>, id: u64) -> (r: Option<usize>)
    ensures
        match r {
            Some(i) => 0 <= i < pools@.len() && find_pool(pools@, id) == i as int,
            None => find_pool(pools@, id) == -1,
        },
{
    let n = pools.len();
    let mut k: usize = 0;
    while k < n
        invariant
            k <= n,
            n == pools@.len(),
            find_pool(pools@, id) == pool_from(pools@, id, k as int),
        decreases n - k,
    {
        if pools[k].0 == id {
            return Some(k);
        }
        k = k + 1;
    }
    None
}

/// Apply this tick's health changes in order: each targeted pool clamps at
/// its maximum, and the owners whose pool sank below zero are returned for
/// despawning.
pub fn apply_health_changes(
    pools: &mut Vec<(u64, Health)>,
    events: &Vec<HealthChangeEvent>,
) -> (deaths: Vec<u64>)
    requires
        pools_wf(old(pools)@),
        forall|i: int|
            0 <= i < events@.len() ==> -HEALTH_LIMIT <= (#[trigger] events@[i]).amount
                <= HEALTH_LIMIT,
    ensures
        final(pools)@ == health_fold(old(pools)@, events@, events@.len() as int).0,
        deaths@ == health_fold(old(pools)@, events@, events@.len() as int).1,
{
    let n = events.len();
    let mut deaths: Vec<u64> = Vec::new();
    let mut k: usize = 0;
    while k < n
        invariant
            k <= n,
            n == events@.len(),
            forall|i: int|
                0 <= i < events@.len() ==> -HEALTH_LIMIT <= (#[trigger] events@[i]).amount
                    <= HEALTH_LIMIT,
            pools@ == health_fold(old(pools)@, events@, k as int).0,
            deaths@ == health_fold(old(pools)@, events@, k as int).1,
            pools_wf(pools@),
        decreases n - k,
    {
        let ev = events[k];
        let ghost pre = pools@;
        match pool_index(pools, ev.target) {
            Some(i) => {
                let owner = pools[i].0;
                let pool = pools[i].1;
                let sum: i64 = pool.current + ev.amount;
                let capped: i64 = if sum > pool.max {
                    pool.max
                } else {
                    sum
                };
                let changed: i64 = if capped < -HEALTH_LIMIT {
                    -HEALTH_LIMIT
                } else {
                    capped
                };
                if sum < 0 {
                    deaths.push(ev.target);
                }
                pools.remove(i);
                pools.insert(i, (owner, Health { current: changed, max: pool.max }));
                proof {
                    lemma_pool_from_bounds(pre, ev.target, 0);
                    assert(pre[i as int].0 == ev.target);
                    assert(pools@ =~= health_step(pre, ev).0);
                }
            },
            None => {},
        }
        k = k + 1;
    }
    deaths
}

} // verus!
