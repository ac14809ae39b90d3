//! Expanding circular wavefronts: polarity, per-tick radius growth with
//! expiry at the maximum radius, the quadratic visual shaping (stroke width
//! and opacity as functions of the squared age fraction), and waves whose
//! spawn is deferred by a countdown.

use crate::geom::{bounded, Vec2i};
use crate::num::COORD_LIMIT;
use crate::timer::{Timer, TIME_LIMIT};
use vstd::arithmetic::div_mod::{lemma_div_pos_is_pos, lemma_multiply_divide_lt};
use vstd::prelude::*;

verus! {

/// Upper bound on a wave's expansion speed, in milliunits per millisecond
/// (equal to world units per second).
pub const SPEED_LIMIT: i64 = 1000;

/// Upper bound on one simulation tick, in milliseconds.
pub const DT_LIMIT: u32 = 1000;

/// The polarity of a wave.
#[derive(Clone, Copy, Debug, PartialEq, Eq, Structural)]
pub enum WaveKind {
    Positive,
    Negative,
}

impl WaveKind {
    /// The stroke color a wave of this polarity is drawn with, as RGB bytes:
    /// red for positive, blue for negative.
    pub fn color_rgb(&self) -> (r: (u8, u8, u8))
        ensures
            r == if self is Positive { (255u8, 0u8, 0u8) } else { (0u8, 0u8, 255u8) },
    {
        match self {
            WaveKind::Positive => (255, 0, 0),
            WaveKind::Negative => (0, 0, 255),
        }
    }
}

/// An expanding circular wavefront. Lengths are milliunits; the center is
/// carried by the owning entity's placement, not by the wave itself.
#[derive(Clone, Copy, Debug, PartialEq, Eq, Structural)]
pub struct Wave {
    pub kind: WaveKind,
    pub radius: i64,
    pub max_radius: i64,
    pub speed: i64,
}

/// The squared age fraction `(radius / max_radius)^2` in permille, the
/// quantity that shapes stroke width, opacity, interference strength and the
/// area-damage band.
pub open spec fn age_sq_permille(radius: int, max_radius: int) -> int {
    radius * radius * 1000 / (max_radius * max_radius)
}

/// The radius a wave has after one tick of `dt_ms` milliseconds.
pub open spec fn grown_radius(w: Wave, dt_ms: int) -> int {
    w.radius + w.speed * dt_ms
}

impl Wave {
    /// A live wave: the radius has not yet reached the maximum, and speed
    /// and maximum are positive and bounded.
    pub open spec fn wf(self) -> bool {
        &&& 0 <= self.radius < self.max_radius
        &&& 1 <= self.max_radius <= COORD_LIMIT
        &&& 1 <= self.speed <= SPEED_LIMIT
    }

    /// Grow the wavefront by one tick. The radius increases by exactly
    /// `speed * dt_ms` (so it never shrinks), and the call reports expiry
    /// exactly when the grown radius reaches or passes the maximum; an
    /// expired wave is destroyed by the caller and takes no further part in
    /// detection.
    pub fn advance(&mut self, dt_ms: u32) -> (expired: bool)
        requires
            old(self).wf(),
            dt_ms <= DT_LIMIT,
        ensures
            final(self).kind == old(self).kind,
            final(self).max_radius == old(self).max_radius,
            final(self).speed == old(self).speed,
            final(self).radius == grown_radius(*old(self), dt_ms as int),
            final(self).radius >= old(self).radius,
            expired == (final(self).radius >= final(self).max_radius),
            !expired ==> final(self).wf(),
    {
        proof {
            let s = old(self).speed as int;
            let d = dt_ms as int;
            assert(0 <= s * d <= SPEED_LIMIT * DT_LIMIT) by (nonlinear_arith)
                requires
                    1 <= s <= SPEED_LIMIT,
                    0 <= d <= DT_LIMIT,
            ;
        }
        self.radius = self.radius + self.speed * (dt_ms as i64);
        self.radius >= self.max_radius
    }

    /// The squared age fraction of this wave, in permille: 0 for a newborn
    /// wave, approaching 1000 as the radius nears the maximum.
    pub fn age_fraction(&self) -> (r: i64)
        requires
            self.wf(),
        ensures
            r == age_sq_permille(self.radius as int, self.max_radius as int),
            0 <= r < 1000,
    {
        proof {
            lemma_age_sq_permille_range(self.radius as int, self.max_radius as int);
            let r = self.radius as int;
            let m = self.max_radius as int;
            assert(r * r * 1000 <= 0x4000_0000_0000_0000 && 1 <= m * m
                <= 0x4000_0000_0000_0000) by (nonlinear_arith)
                requires
                    0 <= r < m,
                    m <= COORD_LIMIT,
            ;
        }
        let num: u64 = (self.radius as u64) * (self.radius as u64) * 1000;
        let den: u64 = (self.max_radius as u64) * (self.max_radius as u64);
        (num / den) as i64
    }

    /// The stroke width the wave is drawn with, in milliunits: a floor of 2
    /// world units growing quadratically to 32 as the wave ages.
    pub fn stroke_width(&self) -> (r: i64)
        requires
            self.wf(),
        ensures
            r == 2000 + 30 * age_sq_permille(self.radius as int, self.max_radius as int),
            2000 <= r < 32000,
    {
        2000 + 30 * self.age_fraction()
    }

    /// The stroke opacity in permille: fully opaque at birth, quadratically
    /// fading toward transparent at the maximum radius.
    pub fn opacity(&self) -> (r: i64)
        requires
            self.wf(),
        ensures
            r == 1000 - age_sq_permille(self.radius as int, self.max_radius as int),
            0 < r <= 1000,
    {
        1000 - self.age_fraction()
    }
}

/// The squared age fraction lies in `[0, 1000)` for a live wave
/// (`0 <= radius < max_radius`).
pub proof fn lemma_age_sq_permille_range(radius: int, max_radius: int)
    requires
        0 <= radius < max_radius,
    ensures
        0 <= age_sq_permille(radius, max_radius) < 1000,
{
    let n = radius * radius * 1000;
    let d = max_radius * max_radius;
    assert(0 <= n && 0 < d && n < d * 1000) by (nonlinear_arith)
        requires
            0 <= radius < max_radius,
            n == radius * radius * 1000,
            d == max_radius * max_radius,
    ;
    lemma_div_pos_is_pos(n, d);
    lemma_multiply_divide_lt(n, d, 1000);
}

/// A wave that will come to life at a fixed position once its countdown
/// elapses; used to trail a negative wave behind each positive one.
#[derive(Clone, Copy, Debug, PartialEq, Eq, Structural)]
pub struct DelayedWave {
    pub wave: Wave,
    pub position: Vec2i,
    pub delay_timer: Timer,
}

impl DelayedWave {
    /// A pending wave that resolves after `delay_ms` at `position`.
    pub fn new(wave: Wave, position: Vec2i, delay_ms: u32) -> (r: DelayedWave)
        requires
            1 <= delay_ms <= TIME_LIMIT,
        ensures
            r.wave == wave,
            r.position == position,
            r.delay_timer == (Timer { duration_ms: delay_ms, elapsed_ms: 0, repeating: false }),
            r.delay_timer.wf(),
    {
        DelayedWave { wave, position, delay_timer: Timer::once(delay_ms) }
    }

    /// Advance the countdown; true means the delay elapsed this tick, and
    /// the caller must spawn `wave` at `position` and drop this entry.
    pub fn tick(&mut self, dt_ms: u32) -> (resolve: bool)
        requires
            old(self).delay_timer.wf(),
            !old(self).delay_timer.repeating,
            dt_ms <= TIME_LIMIT,
        ensures
            final(self).wave == old(self).wave,
            final(self).position == old(self).position,
            final(self).delay_timer.wf(),
            final(self).delay_timer.duration_ms == old(self).delay_timer.duration_ms,
            final(self).delay_timer.repeating == old(self).delay_timer.repeating,
            resolve == (old(self).delay_timer.elapsed_ms + dt_ms
                >= old(self).delay_timer.duration_ms),
            !resolve ==> final(self).delay_timer.elapsed_ms == old(self).delay_timer.elapsed_ms
                + dt_ms,
    {
        self.delay_timer.tick(dt_ms)
    }
}

/// The wave census after one tick over the first `k` entries: every wave
/// grown by `speed * dt`, the ones that reached their maximum dropped.
pub open spec fn advanced_waves(
    s: Seq<(u64, Vec2i, Wave)>,
    dt_ms: int,
    k: int,
) -> Seq<(u64, Vec2i, Wave)>
    decreases k,
{
    if k <= 0 {
        Seq::empty()
    } else {
        let prev = advanced_waves(s, dt_ms, k - 1);
        let w = s[k - 1].2;
        let grown = Wave { radius: grown_radius(w, dt_ms) as i64, ..w };
        if grown_radius(w, dt_ms) >= w.max_radius {
            prev
        } else {
            prev.push((s[k - 1].0, s[k - 1].1, grown))
        }
    }
}

/// One advancement pass over all live waves: each radius grows by
/// `speed * dt`, and a wave whose grown radius reaches its maximum is
/// destroyed — exactly once, the tick it first happens. Every survivor is
/// still a live wave at its old position.
pub fn advance_waves(waves: &Vec<(u64, Vec2i, Wave)>, dt_ms: u32) -> (survivors: Vec<
    (u64, Vec2i, Wave),
>)
    requires
        dt_ms <= DT_LIMIT,
        forall|i: int|
            0 <= i < waves@.len() ==> (#[trigger] waves@[i]).2.wf() && bounded(
                waves@[i].1,
                COORD_LIMIT as int,
            ),
    ensures
        survivors@ == advanced_waves(waves@, dt_ms as int, waves@.len() as int),
        forall|i: int|
            0 <= i < survivors@.len() ==> (#[trigger] survivors@[i]).2.wf() && bounded(
                survivors@[i].1,
                COORD_LIMIT as int,
            ),
{
    let n = waves.len();
    let mut survivors: Vec<(u64, Vec2i, Wave)> = Vec::new();
    let mut k: usize = 0;
    while k < n
        invariant
            k <= n,
            n == waves@.len(),
            dt_ms <= DT_LIMIT,
            forall|i: int|
                0 <= i < waves@.len() ==> (#[trigger] waves@[i]).2.wf() && bounded(
                    waves@[i].1,
                    COORD_LIMIT as int,
                ),
            survivors@ == advanced_waves(waves@, dt_ms as int, k as int),
            forall|i: int|
                0 <= i < survivors@.len() ==> (#[trigger] survivors@[i]).2.wf() && bounded(
                    survivors@[i].1,
                    COORD_LIMIT as int,
                ),
        decreases n - k,
    {
        let (id, pos, mut wave) = waves[k];
        let expired = wave.advance(dt_ms);
        if !expired {
            survivors.push((id, pos, wave));
        }
        k = k + 1;
    }
    survivors
}

/// The split of the pending waves after one tick over the first `k`
/// entries: the entries still counting down (clocks advanced), and the
/// ones whose delay elapsed, due to become live waves.
pub open spec fn ticked_delayed(s: Seq<DelayedWave>, dt_ms: int, k: int) -> (
    Seq<DelayedWave>,
    Seq<DelayedWave>,
)
    decreases k,
{
    if k <= 0 {
        (Seq::empty(), Seq::empty())
    } else {
        let prev = ticked_delayed(s, dt_ms, k - 1);
        let d = s[k - 1];
        if d.delay_timer.elapsed_ms + dt_ms >= d.delay_timer.duration_ms {
            (prev.0, prev.1.push(d))
        } else {
            (
                prev.0.push(
                    DelayedWave {
                        delay_timer: Timer {
                            elapsed_ms: (d.delay_timer.elapsed_ms + dt_ms) as u32,
                            ..d.delay_timer
                        },
                        ..d
                    },
                ),
                prev.1,
            )
        }
    }
}

/// One countdown pass over the pending waves: each clock advances, and an
/// entry whose delay elapsed this tick is handed back for spawning (with
/// its payload and placement untouched) while the rest keep waiting.
pub fn resolve_delayed(delayed: &Vec<DelayedWave>, dt_ms: u32) -> (r: (
    Vec<DelayedWave>,
    Vec<DelayedWave>,
))
    requires
        dt_ms <= DT_LIMIT,
        forall|i: int| 0 <= i < delayed@.len() ==> (#[trigger] delayed@[i]).delay_timer.wf()
            && !delayed@[i].delay_timer.repeating,
    ensures
        r.0@ == ticked_delayed(delayed@, dt_ms as int, delayed@.len() as int).0,
        r.1@ == ticked_delayed(delayed@, dt_ms as int, delayed@.len() as int).1,
        forall|i: int| 0 <= i < r.0@.len() ==> (#[trigger] r.0@[i]).delay_timer.wf()
            && !r.0@[i].delay_timer.repeating,
{
    let n = delayed.len();
    let mut waiting: Vec<DelayedWave> = Vec::new();
    let mut due: Vec<DelayedWave> = Vec::new();
    let mut k: usize = 0;
    while k < n
        invariant
            k <= n,
            n == delayed@.len(),
            dt_ms <= DT_LIMIT,
            forall|i: int| 0 <= i < delayed@.len() ==> (#[trigger] delayed@[i]).delay_timer.wf()
                && !delayed@[i].delay_timer.repeating,
            waiting@ == ticked_delayed(delayed@, dt_ms as int, k as int).0,
            due@ == ticked_delayed(delayed@, dt_ms as int, k as int).1,
            forall|i: int| 0 <= i < waiting@.len() ==> (#[trigger] waiting@[i]).delay_timer.wf()
                && !waiting@[i].delay_timer.repeating,
        decreases n - k,
    {
        let mut d = delayed[k];
        let entry = delayed[k];
        if d.tick(dt_ms) {
            due.push(entry);
        } else {
            waiting.push(d);
        }
        k = k + 1;
    }
    (waiting, due)
}

} // verus!
