//! The interference detector: for a pair of live waves it decides whether
//! the two circular wavefronts intersect, computes the intersection locus,
//! classifies the interaction by the polarity pair, derives the outward
//! propagation direction by backward-differencing the locus, and grades the
//! interaction's strength by the parents' age. All geometry is exact
//! integer arithmetic over milliunits: square roots are floor roots,
//! divisions truncate toward zero, and the contracts state the computed
//! values as closed functions of the inputs.

use crate::geom::{bounded, dist_sq, norm_x, norm_y, Vec2i};
use crate::num::{div_trunc, div_trunc64, is_sqrt_floor, isqrt64, lemma_div_trunc_bound,
    lemma_sqrt_floor_le, sqrt_floor, COORD_LIMIT};
use crate::wave::{age_sq_permille, lemma_age_sq_permille_range, Wave, WaveKind};
use vstd::prelude::*;

verus! {

/// Magnitude bound on an interference locus: a chord point lies within a
/// circle radius of either center, so well within this.
pub const LOCUS_LIMIT: i64 = 40_000_000;

/// Two intersection points at most this far apart (5 world units) merge
/// into a single event.
pub const MERGE_DISTANCE: i64 = 5000;

/// The backward step used to recover the propagation direction: each
/// radius is shrunk by 0.1 world unit and the locus recomputed.
pub const DIRECTION_STEP: i64 = 100;

/// How a detected interference acts on the world, decided by the polarity
/// pair of its parent waves.
#[derive(Clone, Copy, Debug, PartialEq, Eq, Structural)]
pub enum InterferenceKind {
    Destructive,
    Positive,
    Negative,
}

/// A detected interference, consumed the same tick by the materializer.
/// `direction` is a permille-scale direction (zero when degenerate) and
/// `strength` a permille freshness grade.
#[derive(Clone, Copy, Debug, PartialEq, Eq, Structural)]
pub struct WaveInterferenceEvent {
    pub kind: InterferenceKind,
    pub position: Vec2i,
    pub direction: Vec2i,
    pub strength: i64,
}

/// The unordered polarity-pair rule: like polarities reinforce, unlike
/// polarities annihilate.
pub open spec fn combined_kind(a: WaveKind, b: WaveKind) -> InterferenceKind {
    match (a, b) {
        (WaveKind::Positive, WaveKind::Positive) => InterferenceKind::Positive,
        (WaveKind::Negative, WaveKind::Negative) => InterferenceKind::Negative,
        _ => InterferenceKind::Destructive,
    }
}

/// Interference strength in permille: 1000 less the smaller squared age
/// fraction of the two parents.
pub open spec fn interference_strength(w1: Wave, w2: Wave) -> int {
    let a1 = age_sq_permille(w1.radius as int, w1.max_radius as int);
    let a2 = age_sq_permille(w2.radius as int, w2.max_radius as int);
    1000 - (if a1 <= a2 {
        a1
    } else {
        a2
    })
}

/// The pair produces no interference: coincident centers, circles too far
/// apart, or one circle strictly inside the other — all decided exactly on
/// squared distances.
pub open spec fn pair_rejected(p1: Vec2i, r1: int, p2: Vec2i, r2: int) -> bool {
    let d2 = dist_sq(p1, p2);
    d2 == 0 || d2 > (r1 + r2) * (r1 + r2) || d2 < (r1 - r2) * (r1 - r2)
}

/// Distance along the center line from `p1` to the chord midpoint:
/// `(r1^2 - r2^2 + d^2) / (2 d)` with the floor-root distance.
pub open spec fn chord_a(p1: Vec2i, r1: int, p2: Vec2i, r2: int) -> int {
    let d2 = dist_sq(p1, p2);
    div_trunc(r1 * r1 - r2 * r2 + d2, 2 * sqrt_floor(d2))
}

/// Half-chord length `sqrt(r1^2 - a^2)`, clamped at zero when truncation
/// pushes the radicand negative.
pub open spec fn chord_h(p1: Vec2i, r1: int, p2: Vec2i, r2: int) -> int {
    let a = chord_a(p1, r1, p2, r2);
    let h2 = r1 * r1 - a * a;
    if h2 <= 0 {
        0
    } else {
        sqrt_floor(h2)
    }
}

/// X of the chord midpoint `p1 + a * (p2 - p1) / d`.
pub open spec fn chord_center_x(p1: Vec2i, r1: int, p2: Vec2i, r2: int) -> int {
    p1.x + div_trunc(chord_a(p1, r1, p2, r2) * (p2.x - p1.x), sqrt_floor(dist_sq(p1, p2)))
}

/// Y of the chord midpoint.
pub open spec fn chord_center_y(p1: Vec2i, r1: int, p2: Vec2i, r2: int) -> int {
    p1.y + div_trunc(chord_a(p1, r1, p2, r2) * (p2.y - p1.y), sqrt_floor(dist_sq(p1, p2)))
}

/// X of the half-chord offset `h * perpendicular(p2 - p1) / d`, with
/// `perpendicular(v) = (v.y, -v.x)`.
pub open spec fn chord_offset_x(p1: Vec2i, r1: int, p2: Vec2i, r2: int) -> int {
    div_trunc(chord_h(p1, r1, p2, r2) * (p2.y - p1.y), sqrt_floor(dist_sq(p1, p2)))
}

/// Y of the half-chord offset.
pub open spec fn chord_offset_y(p1: Vec2i, r1: int, p2: Vec2i, r2: int) -> int {
    -div_trunc(chord_h(p1, r1, p2, r2) * (p2.x - p1.x), sqrt_floor(dist_sq(p1, p2)))
}

/// An intersection point: the chord midpoint shifted by `s` half-chords
/// (`s` is 1 or -1 for the two split points, 0 for a merged event).
pub open spec fn point_x(p1: Vec2i, r1: int, p2: Vec2i, r2: int, s: int) -> int {
    chord_center_x(p1, r1, p2, r2) + s * chord_offset_x(p1, r1, p2, r2)
}

/// Y of an intersection point; see [`point_x`].
pub open spec fn point_y(p1: Vec2i, r1: int, p2: Vec2i, r2: int, s: int) -> int {
    chord_center_y(p1, r1, p2, r2) + s * chord_offset_y(p1, r1, p2, r2)
}

/// The two intersection points merge into one event when they are at most
/// `MERGE_DISTANCE` apart (the half-chord spans half that).
pub open spec fn pair_merged(p1: Vec2i, r1: int, p2: Vec2i, r2: int) -> bool {
    2 * chord_h(p1, r1, p2, r2) <= MERGE_DISTANCE
}

/// The backward-stepped geometry still has a valid intersection, so a
/// propagation direction can be differenced from it.
pub open spec fn prev_valid(p1: Vec2i, r1: int, p2: Vec2i, r2: int) -> bool {
    &&& r1 - DIRECTION_STEP >= 0
    &&& r2 - DIRECTION_STEP >= 0
    &&& !pair_rejected(p1, r1 - DIRECTION_STEP, p2, r2 - DIRECTION_STEP)
}

/// X of the outward propagation direction of the point with shift `s`:
/// the permille-normalized difference between the current point and the
/// backward-stepped point, or zero when the stepped geometry is degenerate.
pub open spec fn dir_x(p1: Vec2i, r1: int, p2: Vec2i, r2: int, s: int) -> int {
    if prev_valid(p1, r1, p2, r2) {
        let px = r1 - DIRECTION_STEP;
        let py = r2 - DIRECTION_STEP;
        norm_x(
            point_x(p1, r1, p2, r2, s) - point_x(p1, px, p2, py, s),
            point_y(p1, r1, p2, r2, s) - point_y(p1, px, p2, py, s),
        )
    } else {
        0
    }
}

/// Y of the outward propagation direction; see [`dir_x`].
pub open spec fn dir_y(p1: Vec2i, r1: int, p2: Vec2i, r2: int, s: int) -> int {
    if prev_valid(p1, r1, p2, r2) {
        let px = r1 - DIRECTION_STEP;
        let py = r2 - DIRECTION_STEP;
        norm_y(
            point_x(p1, r1, p2, r2, s) - point_x(p1, px, p2, py, s),
            point_y(p1, r1, p2, r2, s) - point_y(p1, px, p2, py, s),
        )
    } else {
        0
    }
}

/// The event with shift `s` carries exactly the classified kind, the graded
/// strength, the intersection point, and the differenced direction.
pub open spec fn event_matches(
    e: WaveInterferenceEvent,
    p1: Vec2i,
    w1: Wave,
    p2: Vec2i,
    w2: Wave,
    s: int,
) -> bool {
    &&& e.kind == combined_kind(w1.kind, w2.kind)
    &&& e.strength == interference_strength(w1, w2)
    &&& e.position.x == point_x(p1, w1.radius as int, p2, w2.radius as int, s)
    &&& e.position.y == point_y(p1, w1.radius as int, p2, w2.radius as int, s)
    &&& e.direction.x == dir_x(p1, w1.radius as int, p2, w2.radius as int, s)
    &&& e.direction.y == dir_y(p1, w1.radius as int, p2, w2.radius as int, s)
}

/// The chord of an intersecting pair, as computed: midpoint, half-chord
/// offset, and half-chord length.
struct Chord {
    center: Vec2i,
    offset: Vec2i,
    h: i64,
}

/// Compute the chord of two intersecting circles; callers have already
/// passed the rejection gates.
fn locus(p1: &Vec2i, r1: i64, p2: &Vec2i, r2: i64) -> (ch: Chord)
    requires
        bounded(*p1, COORD_LIMIT as int),
        bounded(*p2, COORD_LIMIT as int),
        0 <= r1 <= COORD_LIMIT,
        0 <= r2 <= COORD_LIMIT,
        !pair_rejected(*p1, r1 as int, *p2, r2 as int),
    ensures
        ch.center.x == chord_center_x(*p1, r1 as int, *p2, r2 as int),
        ch.center.y == chord_center_y(*p1, r1 as int, *p2, r2 as int),
        ch.offset.x == chord_offset_x(*p1, r1 as int, *p2, r2 as int),
        ch.offset.y == chord_offset_y(*p1, r1 as int, *p2, r2 as int),
        ch.h == chord_h(*p1, r1 as int, *p2, r2 as int),
        bounded(ch.center, 3 * COORD_LIMIT as int + 1),
        bounded(ch.offset, COORD_LIMIT as int),
        0 <= ch.h <= COORD_LIMIT,
{
    let dx: i64 = p2.x - p1.x;
    let dy: i64 = p2.y - p1.y;
    proof {
        assert(0 <= dx * dx + dy * dy <= 0x4000_0000_0000_0000 - 1 && dx * dx >= 0 && dy * dy
            >= 0) by (nonlinear_arith)
            requires
                -2 * COORD_LIMIT <= dx <= 2 * COORD_LIMIT,
                -2 * COORD_LIMIT <= dy <= 2 * COORD_LIMIT,
        ;
    }
    let d2: i64 = dx * dx + dy * dy;
    let d: i64 = isqrt64(d2 as u64) as i64;
    proof {
        let d2i = d2 as int;
        let di = d as int;
        let r1i = r1 as int;
        let r2i = r2 as int;
        assert(is_sqrt_floor(d2i, di));
        // the pair passed the gates
        assert(1 <= d2i && d2i <= (r1i + r2i) * (r1i + r2i) && d2i >= (r1i - r2i) * (r1i
            - r2i));
        assert(di >= 1) by (nonlinear_arith)
            requires
                is_sqrt_floor(d2i, di),
                d2i >= 1,
        ;
        lemma_sqrt_floor_le(d2i, r1i + r2i);
        assert(-di <= dx <= di && -di <= dy <= di && -di <= r1i - r2i <= di && d2i <= di * di
            + 2 * di) by (nonlinear_arith)
            requires
                is_sqrt_floor(d2i, di),
                d2i == dx * dx + dy * dy,
                (r1i - r2i) * (r1i - r2i) <= d2i,
        ;
    }
    proof {
        assert(r1 * r1 <= COORD_LIMIT * COORD_LIMIT && r2 * r2 <= COORD_LIMIT
            * COORD_LIMIT) by (nonlinear_arith)
            requires
                0 <= r1 <= COORD_LIMIT,
                0 <= r2 <= COORD_LIMIT,
        ;
    }
    let a_num: i64 = r1 * r1 - r2 * r2 + d2;
    proof {
        let di = d as int;
        let r1i = r1 as int;
        let r2i = r2 as int;
        assert(-(2 * di * (r1i + r2i + 1)) <= a_num && a_num <= 2 * di * (r1i + r2i
            + 1)) by (nonlinear_arith)
            requires
                a_num == r1i * r1i - r2i * r2i + (d2 as int),
                1 <= di,
                di <= r1i + r2i,
                -di <= r1i - r2i <= di,
                0 <= d2 as int <= di * di + 2 * di,
                0 <= r1i,
                0 <= r2i,
        ;
        lemma_div_trunc_bound(a_num as int, 2 * di, r1i + r2i + 1);
    }
    let a: i64 = div_trunc64(a_num, 2 * d);
    proof {
        let ai = a as int;
        let r1i = r1 as int;
        assert(0 <= ai * ai <= (2 * COORD_LIMIT + 1) * (2 * COORD_LIMIT + 1)) by (nonlinear_arith)
            requires
                -(2 * COORD_LIMIT + 1) <= ai <= 2 * COORD_LIMIT + 1,
        ;
    }
    let h2: i64 = r1 * r1 - a * a;
    let h: i64 = if h2 <= 0 {
        0
    } else {
        proof {
            lemma_sqrt_floor_le(h2 as int, r1 as int);
        }
        isqrt64(h2 as u64) as i64
    };
    proof {
        let di = d as int;
        let hi = h as int;
        let ai = a as int;
        let r1i = r1 as int;
        let r2i = r2 as int;
        assert(-((r1i + r2i + 1) * di) <= ai * dx <= (r1i + r2i + 1) * di && -((r1i + r2i + 1)
            * di) <= ai * dy <= (r1i + r2i + 1) * di) by (nonlinear_arith)
            requires
                -(r1i + r2i + 1) <= ai <= r1i + r2i + 1,
                -di <= dx <= di,
                -di <= dy <= di,
                0 <= di,
        ;
        lemma_div_trunc_bound(ai * dx, di, r1i + r2i + 1);
        lemma_div_trunc_bound(ai * dy, di, r1i + r2i + 1);
        assert(-(r1i * di) <= hi * dx <= r1i * di && -(r1i * di) <= hi * dy <= r1i
            * di) by (nonlinear_arith)
            requires
                0 <= hi <= r1i,
                -di <= dx <= di,
                -di <= dy <= di,
                0 <= di,
        ;
        lemma_div_trunc_bound(hi * dx, di, r1i);
        lemma_div_trunc_bound(hi * dy, di, r1i);
        assert(-0x4000_0000_0000_0000 <= ai * dx <= 0x4000_0000_0000_0000
            && -0x4000_0000_0000_0000 <= ai * dy <= 0x4000_0000_0000_0000
            && -0x4000_0000_0000_0000 <= hi * dx <= 0x4000_0000_0000_0000
            && -0x4000_0000_0000_0000 <= hi * dy <= 0x4000_0000_0000_0000) by (nonlinear_arith)
            requires
                -(2 * COORD_LIMIT + 1) <= ai <= 2 * COORD_LIMIT + 1,
                0 <= hi <= COORD_LIMIT,
                -2 * COORD_LIMIT <= dx <= 2 * COORD_LIMIT,
                -2 * COORD_LIMIT <= dy <= 2 * COORD_LIMIT,
        ;
    }
    let cx: i64 = p1.x + div_trunc64(a * dx, d);
    let cy: i64 = p1.y + div_trunc64(a * dy, d);
    let ox: i64 = div_trunc64(h * dy, d);
    let oy: i64 = -div_trunc64(h * dx, d);
    Chord { center: Vec2i { x: cx, y: cy }, offset: Vec2i { x: ox, y: oy }, h }
}

/// Classify an unordered polarity pair; the rule is symmetric in its
/// arguments.
pub fn classify(a: WaveKind, b: WaveKind) -> (r: InterferenceKind)
    ensures
        r == combined_kind(a, b),
{
    match (a, b) {
        (WaveKind::Positive, WaveKind::Positive) => InterferenceKind::Positive,
        (WaveKind::Negative, WaveKind::Negative) => InterferenceKind::Negative,
        _ => InterferenceKind::Destructive,
    }
}

/// The freshness grade of an interference between two live waves, in
/// permille: 1000 at birth, sinking toward 0 only as the later-expiring
/// parent nears its own maximum radius.
pub fn strength_of(w1: &Wave, w2: &Wave) -> (s: i64)
    requires
        w1.wf(),
        w2.wf(),
    ensures
        s == interference_strength(*w1, *w2),
        0 < s <= 1000,
{
    let a1 = w1.age_fraction();
    let a2 = w2.age_fraction();
    if a1 <= a2 {
        1000 - a1
    } else {
        1000 - a2
    }
}

/// Examine one unordered pair of live waves and emit its interference
/// events: none when the pair is rejected, one merged event when the two
/// intersection points nearly coincide, else one event per intersection
/// point.
pub fn detect_pair(p1: &Vec2i, w1: &Wave, p2: &Vec2i, w2: &Wave) -> (events: Vec<
    WaveInterferenceEvent,
>)
    requires
        w1.wf(),
        w2.wf(),
        bounded(*p1, COORD_LIMIT as int),
        bounded(*p2, COORD_LIMIT as int),
    ensures
        pair_rejected(*p1, w1.radius as int, *p2, w2.radius as int) ==> events@.len() == 0,
        !pair_rejected(*p1, w1.radius as int, *p2, w2.radius as int) && pair_merged(
            *p1,
            w1.radius as int,
            *p2,
            w2.radius as int,
        ) ==> events@.len() == 1 && event_matches(events@[0], *p1, *w1, *p2, *w2, 0),
        !pair_rejected(*p1, w1.radius as int, *p2, w2.radius as int) && !pair_merged(
            *p1,
            w1.radius as int,
            *p2,
            w2.radius as int,
        ) ==> events@.len() == 2 && event_matches(events@[0], *p1, *w1, *p2, *w2, 1)
            && event_matches(events@[1], *p1, *w1, *p2, *w2, -1),
        forall|i: int|
            0 <= i < events@.len() ==> bounded((#[trigger] events@[i]).position, LOCUS_LIMIT as int)
                && bounded(events@[i].direction, 1000) && 0 < events@[i].strength <= 1000,
{
    let mut events: Vec<WaveInterferenceEvent> = Vec::new();
    let r1: i64 = w1.radius;
    let r2: i64 = w2.radius;
    let d2: i64 = p1.dist_sq_to(p2);
    proof {
        assert(0 <= (r1 + r2) * (r1 + r2) <= 0x4000_0000_0000_0000 && 0 <= (r1 - r2) * (r1
            - r2) <= 0x4000_0000_0000_0000) by (nonlinear_arith)
            requires
                0 <= r1 <= COORD_LIMIT,
                0 <= r2 <= COORD_LIMIT,
        ;
    }
    if d2 == 0 || d2 > (r1 + r2) * (r1 + r2) || d2 < (r1 - r2) * (r1 - r2) {
        return events;
    }
    let ch = locus(p1, r1, p2, r2);
    let kind = classify(w1.kind, w2.kind);
    let strength = strength_of(w1, w2);
    let stepped: bool = r1 >= DIRECTION_STEP && r2 >= DIRECTION_STEP && {
        let q1: i64 = r1 - DIRECTION_STEP;
        let q2: i64 = r2 - DIRECTION_STEP;
        proof {
            assert(0 <= (q1 + q2) * (q1 + q2) <= 0x4000_0000_0000_0000 && 0 <= (q1 - q2) * (q1
                - q2) <= 0x4000_0000_0000_0000) by (nonlinear_arith)
                requires
                    0 <= q1 <= COORD_LIMIT,
                    0 <= q2 <= COORD_LIMIT,
            ;
        }
        !(d2 > (q1 + q2) * (q1 + q2) || d2 < (q1 - q2) * (q1 - q2))
    };
    if 2 * ch.h <= MERGE_DISTANCE {
        let direction: Vec2i = if stepped {
            let pch = locus(p1, r1 - DIRECTION_STEP, p2, r2 - DIRECTION_STEP);
            let delta = Vec2i { x: ch.center.x - pch.center.x, y: ch.center.y - pch.center.y };
            delta.normalize_permille()
        } else {
            Vec2i::zero()
        };
        events.push(
            WaveInterferenceEvent { kind, position: ch.center, direction, strength },
        );
    } else {
        let plus = Vec2i { x: ch.center.x + ch.offset.x, y: ch.center.y + ch.offset.y };
        let minus = Vec2i { x: ch.center.x - ch.offset.x, y: ch.center.y - ch.offset.y };
        let (dir_plus, dir_minus): (Vec2i, Vec2i) = if stepped {
            let pch = locus(p1, r1 - DIRECTION_STEP, p2, r2 - DIRECTION_STEP);
            let prev_plus = Vec2i {
                x: pch.center.x + pch.offset.x,
                y: pch.center.y + pch.offset.y,
            };
            let prev_minus = Vec2i {
                x: pch.center.x - pch.offset.x,
                y: pch.center.y - pch.offset.y,
            };
            let delta_plus = Vec2i { x: plus.x - prev_plus.x, y: plus.y - prev_plus.y };
            let delta_minus = Vec2i { x: minus.x - prev_minus.x, y: minus.y - prev_minus.y };
            (delta_plus.normalize_permille(), delta_minus.normalize_permille())
        } else {
            (Vec2i::zero(), Vec2i::zero())
        };
        events.push(
            WaveInterferenceEvent { kind, position: plus, direction: dir_plus, strength },
        );
        events.push(
            WaveInterferenceEvent { kind, position: minus, direction: dir_minus, strength },
        );
    }
    events
}

/// Polarity classification law: like polarities produce their own kind,
/// unlike polarities produce a destructive interference, independently of
/// argument order.
pub proof fn lemma_polarity_classification(a: WaveKind, b: WaveKind)
    ensures
        combined_kind(a, b) == combined_kind(b, a),
        combined_kind(WaveKind::Positive, WaveKind::Positive) == InterferenceKind::Positive,
        combined_kind(WaveKind::Negative, WaveKind::Negative) == InterferenceKind::Negative,
        a != b ==> combined_kind(a, b) == InterferenceKind::Destructive,
{
}

/// Strength freshness law: an interference of two newborn waves (both
/// radii zero) has full strength, and strength is symmetric in the pair.
pub proof fn lemma_strength_fresh(w1: Wave, w2: Wave)
    requires
        w1.wf(),
        w2.wf(),
    ensures
        interference_strength(w1, w2) == interference_strength(w2, w1),
        w1.radius == 0 && w2.radius == 0 ==> interference_strength(w1, w2) == 1000,
{
    if w1.radius == 0 && w2.radius == 0 {
        let m1 = w1.max_radius as int;
        let m2 = w2.max_radius as int;
        assert(m1 * m1 > 0 && m2 * m2 > 0) by (nonlinear_arith)
            requires
                m1 >= 1,
                m2 >= 1,
        ;
        vstd::arithmetic::div_mod::lemma_div_of0(m1 * m1);
        vstd::arithmetic::div_mod::lemma_div_of0(m2 * m2);
        assert(age_sq_permille(0, m1) == 0);
        assert(age_sq_permille(0, m2) == 0);
    }
}

/// Strength range law: for any two live waves the strength lies in
/// `(0, 1000]` — in particular it never leaves `[0, 1000]`.
pub proof fn lemma_strength_range(w1: Wave, w2: Wave)
    requires
        w1.wf(),
        w2.wf(),
    ensures
        0 < interference_strength(w1, w2) <= 1000,
{
    lemma_age_sq_permille_range(w1.radius as int, w1.max_radius as int);
    lemma_age_sq_permille_range(w2.radius as int, w2.max_radius as int);
}

/// Strength decay law: growing either parent's radius (toward its maximum)
/// never raises the strength; strength sinks as the waves age.
pub proof fn lemma_strength_decay(w1: Wave, g1: Wave, w2: Wave)
    requires
        w1.wf(),
        g1.wf(),
        w2.wf(),
        g1.max_radius == w1.max_radius,
        g1.radius >= w1.radius,
    ensures
        interference_strength(g1, w2) <= interference_strength(w1, w2),
        interference_strength(w2, g1) <= interference_strength(w2, w1),
{
    lemma_age_sq_permille_monotone(
        w1.radius as int,
        g1.radius as int,
        w1.max_radius as int,
    );
}

/// The squared age fraction is monotone in the radius.
pub proof fn lemma_age_sq_permille_monotone(r1: int, r2: int, m: int)
    requires
        0 <= r1 <= r2,
        0 < m,
    ensures
        age_sq_permille(r1, m) <= age_sq_permille(r2, m),
{
    assert(r1 * r1 * 1000 <= r2 * r2 * 1000 && 0 < m * m) by (nonlinear_arith)
        requires
            0 <= r1 <= r2,
            0 < m,
    ;
    vstd::arithmetic::div_mod::lemma_div_is_ordered(r1 * r1 * 1000, r2 * r2 * 1000, m * m);
}

/// How many events one pair contributes: none when rejected, one when
/// merged, two when split.
pub open spec fn pair_count(p1: Vec2i, w1: Wave, p2: Vec2i, w2: Wave) -> int {
    if pair_rejected(p1, w1.radius as int, p2, w2.radius as int) {
        0
    } else if pair_merged(p1, w1.radius as int, p2, w2.radius as int) {
        1
    } else {
        2
    }
}

/// Events contributed by the pairs `(i, k)` with `i < k < j`.
pub open spec fn row_count(s: Seq<(Vec2i, Wave)>, i: int, j: int) -> int
    decreases j - i,
{
    if j <= i + 1 {
        0
    } else {
        row_count(s, i, j - 1) + pair_count(s[i].0, s[i].1, s[j - 1].0, s[j - 1].1)
    }
}

/// Events contributed by all pairs whose first index is below `i`.
pub open spec fn rows_count(s: Seq<(Vec2i, Wave)>, i: int) -> int
    decreases i,
{
    if i <= 0 {
        0
    } else {
        rows_count(s, i - 1) + row_count(s, i - 1, s.len() as int)
    }
}

/// Where in the event stream the events of pair `(i, j)` begin: the sweep
/// walks pairs in lexicographic order.
pub open spec fn pair_offset(s: Seq<(Vec2i, Wave)>, i: int, j: int) -> int {
    rows_count(s, i) + row_count(s, i, j)
}

/// The events of pair `(i, j)` stand at their offset in the stream and
/// carry exactly the detector's values.
pub open spec fn pair_events_at(
    events: Seq<WaveInterferenceEvent>,
    s: Seq<(Vec2i, Wave)>,
    i: int,
    j: int,
) -> bool {
    let off = pair_offset(s, i, j);
    let p1 = s[i].0;
    let w1 = s[i].1;
    let p2 = s[j].0;
    let w2 = s[j].1;
    if pair_rejected(p1, w1.radius as int, p2, w2.radius as int) {
        true
    } else if pair_merged(p1, w1.radius as int, p2, w2.radius as int) {
        event_matches(events[off], p1, w1, p2, w2, 0)
    } else {
        event_matches(events[off], p1, w1, p2, w2, 1) && event_matches(
            events[off + 1],
            p1,
            w1,
            p2,
            w2,
            -1,
        )
    }
}

/// A row's event count only grows with its end index.
proof fn lemma_row_count_mono(s: Seq<(Vec2i, Wave)>, i: int, j1: int, j2: int)
    requires
        j1 <= j2,
    ensures
        row_count(s, i, j1) <= row_count(s, i, j2),
    decreases j2 - j1,
{
    if j1 < j2 {
        lemma_row_count_mono(s, i, j1, j2 - 1);
    }
}

/// Row counts are never negative.
proof fn lemma_row_count_nonneg(s: Seq<(Vec2i, Wave)>, i: int, j: int)
    ensures
        row_count(s, i, j) >= 0,
{
    lemma_row_count_mono(s, i, i + 1, if j <= i + 1 { i + 1 } else { j });
}

/// Examine every unordered pair of live waves, in index order, and emit
/// the concatenated interference events: each pair's events stand at that
/// pair's offset in the stream, carrying exactly the detector's values, and
/// the stream holds nothing else.
pub fn detect_interference(waves: &Vec<(Vec2i, Wave)>) -> (events: Vec<WaveInterferenceEvent>)
    requires
        forall|i: int|
            0 <= i < waves@.len() ==> (#[trigger] waves@[i]).1.wf() && bounded(
                waves@[i].0,
                COORD_LIMIT as int,
            ),
    ensures
        events@.len() == rows_count(waves@, waves@.len() as int),
        forall|i: int, j: int|
            0 <= i < j < waves@.len() ==> #[trigger] pair_events_at(events@, waves@, i, j),
        forall|k: int|
            0 <= k < events@.len() ==> bounded((#[trigger] events@[k]).position, LOCUS_LIMIT as int)
                && bounded(events@[k].direction, 1000) && 0 < events@[k].strength <= 1000,
{
    let n: usize = waves.len();
    let mut events: Vec<WaveInterferenceEvent> = Vec::new();
    let mut i: usize = 0;
    while i < n
        invariant
            i <= n,
            n == waves@.len(),
            forall|x: int|
                0 <= x < waves@.len() ==> (#[trigger] waves@[x]).1.wf() && bounded(
                    waves@[x].0,
                    COORD_LIMIT as int,
                ),
            events@.len() == rows_count(waves@, i as int),
            forall|x: int, y: int|
                0 <= x < y < waves@.len() && x < i ==> #[trigger] pair_events_at(
                    events@,
                    waves@,
                    x,
                    y,
                ),
            forall|k: int|
                0 <= k < events@.len() ==> bounded(
                    (#[trigger] events@[k]).position,
                    LOCUS_LIMIT as int,
                ) && bounded(events@[k].direction, 1000) && 0 < events@[k].strength <= 1000,
        decreases n - i,
    {
        let mut j: usize = i + 1;
        proof {
            assert(row_count(waves@, i as int, j as int) == 0);
        }
        while j < n
            invariant
                i < n,
                i + 1 <= j <= n,
                n == waves@.len(),
                forall|x: int|
                    0 <= x < waves@.len() ==> (#[trigger] waves@[x]).1.wf() && bounded(
                        waves@[x].0,
                        COORD_LIMIT as int,
                    ),
                events@.len() == rows_count(waves@, i as int) + row_count(
                    waves@,
                    i as int,
                    j as int,
                ),
                forall|x: int, y: int|
                    0 <= x < y < waves@.len() && (x < i || (x == i && y < j))
                        ==> #[trigger] pair_events_at(events@, waves@, x, y),
                forall|k: int|
                    0 <= k < events@.len() ==> bounded(
                        (#[trigger] events@[k]).position,
                        LOCUS_LIMIT as int,
                    ) && bounded(events@[k].direction, 1000) && 0 < events@[k].strength <= 1000,
            decreases n - j,
        {
            let ghost pre = events@;
            let mut pair_evs = detect_pair(&waves[i].0, &waves[i].1, &waves[j].0, &waves[j].1);
            let ghost got = pair_evs@;
            events.append(&mut pair_evs);
            proof {
                let s = waves@;
                let ii = i as int;
                let jj = j as int;
                let p1 = s[ii].0;
                let w1 = s[ii].1;
                let p2 = s[jj].0;
                let w2 = s[jj].1;
                assert(events@ == pre + got);
                assert(got.len() == pair_count(p1, w1, p2, w2));
                assert(row_count(s, ii, jj + 1) == row_count(s, ii, jj) + pair_count(
                    p1,
                    w1,
                    p2,
                    w2,
                ));
                // the new pair's events are in place
                assert(pre.len() == pair_offset(s, ii, jj));
                if got.len() >= 1 {
                    assert(events@[pre.len() as int] == got[0]);
                }
                if got.len() >= 2 {
                    assert(events@[pre.len() as int + 1] == got[1]);
                }
                assert(pair_events_at(events@, s, ii, jj));
                // earlier pairs are untouched: their events lie below pre.len()
                assert forall|x: int, y: int|
                    0 <= x < y < s.len() && (x < ii || (x == ii && y < jj))
                        implies #[trigger] pair_events_at(events@, s, x, y) by {
                    assert(pair_events_at(pre, s, x, y));
                    lemma_pair_end_le(s, x, y, ii, jj);
                    lemma_rows_count_mono(s, 0, x);
                    lemma_row_count_nonneg(s, x, y);
                    let off = pair_offset(s, x, y);
                    assert(0 <= off);
                    assert(off + pair_count(s[x].0, s[x].1, s[y].0, s[y].1) <= pre.len());
                    let px = s[x].0;
                    let wx = s[x].1;
                    let py = s[y].0;
                    let wy = s[y].1;
                    if !pair_rejected(px, wx.radius as int, py, wy.radius as int) {
                        if pair_merged(px, wx.radius as int, py, wy.radius as int) {
                            assert(events@[off] == pre[off]);
                        } else {
                            assert(events@[off] == pre[off]);
                            assert(events@[off + 1] == pre[off + 1]);
                        }
                    }
                }
                // the freshly appended events carry the detector's bounds
                assert forall|k: int| 0 <= k < events@.len() implies bounded(
                    (#[trigger] events@[k]).position,
                    LOCUS_LIMIT as int,
                ) && bounded(events@[k].direction, 1000) && 0 < events@[k].strength <= 1000 by {
                    if k < pre.len() {
                        assert(events@[k] == pre[k]);
                    } else {
                        assert(events@[k] == got[k - pre.len()]);
                    }
                }
            }
            j = j + 1;
        }
        proof {
            assert(rows_count(waves@, i as int + 1) == rows_count(waves@, i as int) + row_count(
                waves@,
                i as int,
                waves@.len() as int,
            ));
        }
        i = i + 1;
    }
    events
}

/// A pair lexicographically before `(i, j)` has all its events below the
/// offset of `(i, j)`.
proof fn lemma_pair_end_le(s: Seq<(Vec2i, Wave)>, x: int, y: int, i: int, j: int)
    requires
        0 <= x < y < s.len(),
        0 <= i < j <= s.len(),
        x < i || (x == i && y < j),
    ensures
        pair_offset(s, x, y) + pair_count(s[x].0, s[x].1, s[y].0, s[y].1) <= pair_offset(
            s,
            i,
            j,
        ),
{
    assert(pair_offset(s, x, y) + pair_count(s[x].0, s[x].1, s[y].0, s[y].1) == pair_offset(
        s,
        x,
        y + 1,
    ));
    if x == i {
        lemma_row_count_mono(s, x, y + 1, j);
    } else {
        lemma_row_count_mono(s, x, y + 1, s.len() as int);
        lemma_rows_count_mono(s, x + 1, i);
        lemma_row_count_nonneg(s, i, j);
        assert(rows_count(s, x + 1) == rows_count(s, x) + row_count(s, x, s.len() as int));
    }
}

/// The total over complete rows only grows with the row index.
proof fn lemma_rows_count_mono(s: Seq<(Vec2i, Wave)>, i1: int, i2: int)
    requires
        0 <= i1 <= i2,
    ensures
        rows_count(s, i1) <= rows_count(s, i2),
    decreases i2 - i1,
{
    if i1 < i2 {
        lemma_rows_count_mono(s, i1, i2 - 1);
        lemma_row_count_nonneg(s, i2 - 1, s.len() as int);
    }
}

} // verus!
