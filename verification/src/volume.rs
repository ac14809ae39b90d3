//! The interference materializer: each detected interference event becomes
//! a short-lived interaction volume — a collision ball placed slightly ahead
//! of the wavefront along the propagation direction, whose radius widens as
//! the interference strength decays, carrying the kind, direction and
//! strength for the effect resolvers to consume.

use crate::geom::{bounded, Vec2i};
use crate::interference::{InterferenceKind, WaveInterferenceEvent, LOCUS_LIMIT};
use crate::timer::{Lifespan, Timer};
use crate::wave::DT_LIMIT;
use vstd::prelude::*;

verus! {

/// How long a materialized volume lives, in milliseconds: long enough for
/// the physics backend to report a collision, short enough not to pile up.
pub const VOLUME_LIFESPAN_MS: u32 = 50;

/// The interference payload carried by an interaction volume.
#[derive(Clone, Copy, Debug, PartialEq, Eq, Structural)]
pub struct WaveInterference {
    pub kind: InterferenceKind,
    pub direction: Vec2i,
    pub strength: i64,
}

/// A materialized interaction volume: payload, world position, collision
/// radius (milliunits) and remaining lifespan.
#[derive(Clone, Copy, Debug, PartialEq, Eq, Structural)]
pub struct InterferenceVolume {
    pub interference: WaveInterference,
    pub position: Vec2i,
    pub radius: i64,
    pub lifespan: Lifespan,
}

/// The base collision radius of each interference kind, in world units.
pub open spec fn kind_base_radius(k: InterferenceKind) -> int {
    match k {
        InterferenceKind::Destructive => 30,
        InterferenceKind::Positive => 15,
        InterferenceKind::Negative => 25,
    }
}

/// A volume's collision radius in milliunits: a floor of 2 world units plus
/// the kind's base radius scaled by how far the strength has decayed — a
/// fresh interference is a tight volume, a decayed one a broad one.
pub open spec fn volume_radius(k: InterferenceKind, strength: int) -> int {
    2000 + kind_base_radius(k) * (1000 - strength)
}

/// The volume one event materializes into, as a closed value: payload
/// copied, position nudged two units along the direction, radius widened
/// by the decayed strength, lifespan fresh.
pub open spec fn materialized(e: WaveInterferenceEvent) -> InterferenceVolume {
    InterferenceVolume {
        interference: WaveInterference {
            kind: e.kind,
            direction: e.direction,
            strength: e.strength,
        },
        position: Vec2i {
            x: (e.position.x + 2 * e.direction.x) as i64,
            y: (e.position.y + 2 * e.direction.y) as i64,
        },
        radius: (2000 + kind_base_radius(e.kind) * (1000 - e.strength)) as i64,
        lifespan: Lifespan {
            timer: Timer { duration_ms: VOLUME_LIFESPAN_MS, elapsed_ms: 0, repeating: false },
        },
    }
}

impl InterferenceVolume {
    /// Materialize one detected interference event. The volume sits two
    /// world units ahead of the event along its permille direction, and its
    /// radius tracks `(1 - strength)` exactly as the stroke shaping does.
    pub fn materialize(event: &WaveInterferenceEvent) -> (v: InterferenceVolume)
        requires
            bounded(event.position, LOCUS_LIMIT as int),
            bounded(event.direction, 1000),
            0 <= event.strength <= 1000,
        ensures
            v == materialized(*event),
            v.interference.kind == event.kind,
            v.interference.direction == event.direction,
            v.interference.strength == event.strength,
            v.position.x == event.position.x + 2 * event.direction.x,
            v.position.y == event.position.y + 2 * event.direction.y,
            v.radius == volume_radius(event.kind, event.strength as int),
            2000 <= v.radius <= 32000,
            v.lifespan.timer == (Timer {
                duration_ms: VOLUME_LIFESPAN_MS,
                elapsed_ms: 0,
                repeating: false,
            }),
            v.lifespan.timer.wf(),
            bounded(v.position, LOCUS_LIMIT as int + 2000),
    {
        let base: i64 = match event.kind {
            InterferenceKind::Destructive => 30,
            InterferenceKind::Positive => 15,
            InterferenceKind::Negative => 25,
        };
        InterferenceVolume {
            interference: WaveInterference {
                kind: event.kind,
                direction: event.direction,
                strength: event.strength,
            },
            position: Vec2i {
                x: event.position.x + 2 * event.direction.x,
                y: event.position.y + 2 * event.direction.y,
            },
            radius: 2000 + base * (1000 - event.strength),
            lifespan: Lifespan::new(VOLUME_LIFESPAN_MS),
        }
    }
}

/// The volume census after one tick over the first `k` entries: every
/// lifespan advanced, the expired volumes dropped.
pub open spec fn aged_volumes(
    s: Seq<(u64, InterferenceVolume)>,
    dt_ms: int,
    k: int,
) -> Seq<(u64, InterferenceVolume)>
    decreases k,
{
    if k <= 0 {
        Seq::empty()
    } else {
        let prev = aged_volumes(s, dt_ms, k - 1);
        let v = s[k - 1].1;
        if v.lifespan.timer.elapsed_ms + dt_ms >= v.lifespan.timer.duration_ms {
            prev
        } else {
            prev.push(
                (
                    s[k - 1].0,
                    InterferenceVolume {
                        lifespan: Lifespan {
                            timer: Timer {
                                elapsed_ms: (v.lifespan.timer.elapsed_ms + dt_ms) as u32,
                                ..v.lifespan.timer
                            },
                        },
                        ..v
                    },
                ),
            )
        }
    }
}

/// One lifespan pass over the live volumes: each clock advances, and a
/// volume whose lifespan ran out this tick is destroyed.
pub fn age_volumes(volumes: &Vec<(u64, InterferenceVolume)>, dt_ms: u32) -> (survivors: Vec<
    (u64, InterferenceVolume),
>)
    requires
        dt_ms <= DT_LIMIT,
        forall|i: int|
            0 <= i < volumes@.len() ==> (#[trigger] volumes@[i]).1.lifespan.timer.wf()
                && !volumes@[i].1.lifespan.timer.repeating,
    ensures
        survivors@ == aged_volumes(volumes@, dt_ms as int, volumes@.len() as int),
        forall|i: int|
            0 <= i < survivors@.len() ==> (#[trigger] survivors@[i]).1.lifespan.timer.wf()
                && !survivors@[i].1.lifespan.timer.repeating,
{
    let n = volumes.len();
    let mut survivors: Vec<(u64, InterferenceVolume)> = Vec::new();
    let mut k: usize = 0;
    while k < n
        invariant
            k <= n,
            n == volumes@.len(),
            dt_ms <= DT_LIMIT,
            forall|i: int|
                0 <= i < volumes@.len() ==> (#[trigger] volumes@[i]).1.lifespan.timer.wf()
                    && !volumes@[i].1.lifespan.timer.repeating,
            survivors@ == aged_volumes(volumes@, dt_ms as int, k as int),
            forall|i: int|
                0 <= i < survivors@.len() ==> (#[trigger] survivors@[i]).1.lifespan.timer.wf()
                    && !survivors@[i].1.lifespan.timer.repeating,
        decreases n - k,
    {
        let (id, mut v) = volumes[k];
        let expired = v.lifespan.tick(dt_ms);
        if !expired {
            survivors.push((id, v));
        }
        k = k + 1;
    }
    survivors
}

} // verus!
