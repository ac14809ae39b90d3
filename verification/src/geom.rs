//! Plane vectors in integer milliunits, with the exact operations the wave
//! engine needs: squared distance, the perpendicular used to place the two
//! circle-intersection points, and permille normalization (a direction
//! vector scaled so that a unit vector has magnitude close to 1000).

use crate::num::{div_trunc, div_trunc64, is_sqrt_floor, isqrt64, lemma_div_trunc_bound,
    lemma_sqrt_floor_exists, sqrt_floor, COORD_LIMIT};
use vstd::prelude::*;

verus! {

/// Loose magnitude bound for derived points (interference loci, deltas of
/// loci, lead-aim targets): wide enough for any value the library forms
/// from world coordinates, and small enough that squaring stays inside
/// `i64`.
pub const DERIVED_LIMIT: i64 = 1_000_000_000;

/// A point or displacement of the world plane, in milliunits.
#[derive(Clone, Copy, Debug, PartialEq, Eq, Structural)]
pub struct Vec2i {
    pub x: i64,
    pub y: i64,
}

/// Both components have magnitude at most `limit`.
pub open spec fn bounded(v: Vec2i, limit: int) -> bool {
    -limit <= v.x <= limit && -limit <= v.y <= limit
}

/// The squared Euclidean distance between `a` and `b`.
pub open spec fn dist_sq(a: Vec2i, b: Vec2i) -> int {
    (b.x - a.x) * (b.x - a.x) + (b.y - a.y) * (b.y - a.y)
}

/// Permille normalization: the zero vector stays zero, any other vector is
/// scaled by `1000 / |v|` (floor square root, truncating division), so each
/// component lands in `[-1000, 1000]`.
pub open spec fn norm_x(x: int, y: int) -> int {
    if x == 0 && y == 0 {
        0
    } else {
        div_trunc(x * 1000, sqrt_floor(x * x + y * y))
    }
}

/// The y component of permille normalization; see [`norm_x`].
pub open spec fn norm_y(x: int, y: int) -> int {
    if x == 0 && y == 0 {
        0
    } else {
        div_trunc(y * 1000, sqrt_floor(x * x + y * y))
    }
}

impl Vec2i {
    /// The origin.
    pub fn zero() -> (r: Vec2i)
        ensures
            r.x == 0,
            r.y == 0,
    {
        Vec2i { x: 0, y: 0 }
    }

    /// Squared distance to `other`, exact.
    pub fn dist_sq_to(&self, other: &Vec2i) -> (r: i64)
        requires
            bounded(*self, DERIVED_LIMIT as int),
            bounded(*other, DERIVED_LIMIT as int),
        ensures
            r == dist_sq(*self, *other),
            0 <= r,
    {
        let dx: i64 = other.x - self.x;
        let dy: i64 = other.y - self.y;
        proof {
            lemma_sq_bound(dx as int, 2 * DERIVED_LIMIT as int);
            lemma_sq_bound(dy as int, 2 * DERIVED_LIMIT as int);
        }
        dx * dx + dy * dy
    }

    /// Permille normalization, the zero vector mapping to zero. The result's
    /// components are the exact truncated quotients `v * 1000 / |v|`.
    pub fn normalize_permille(&self) -> (r: Vec2i)
        requires
            bounded(*self, DERIVED_LIMIT as int),
        ensures
            r.x == norm_x(self.x as int, self.y as int),
            r.y == norm_y(self.x as int, self.y as int),
            bounded(r, 1000),
    {
        if self.x == 0 && self.y == 0 {
            Vec2i { x: 0, y: 0 }
        } else {
            proof {
                lemma_sq_bound(self.x as int, DERIVED_LIMIT as int);
                lemma_sq_bound(self.y as int, DERIVED_LIMIT as int);
            }
            let sq: i64 = self.x * self.x + self.y * self.y;
            let len: i64 = isqrt64(sq as u64) as i64;
            proof {
                let xi = self.x as int;
                let yi = self.y as int;
                let s = xi * xi + yi * yi;
                let l = sqrt_floor(s);
                assert(is_sqrt_floor(s, l)) by {
                    lemma_sqrt_floor_exists(s);
                }
                assert(s >= 1) by (nonlinear_arith)
                    requires
                        s == xi * xi + yi * yi,
                        !(xi == 0 && yi == 0),
                ;
                assert(l >= 1) by (nonlinear_arith)
                    requires
                        0 <= l,
                        s < (l + 1) * (l + 1),
                        s >= 1,
                ;
                lemma_component_le_len(xi, yi);
            }
            let nx: i64 = div_trunc64(self.x * 1000, len);
            let ny: i64 = div_trunc64(self.y * 1000, len);
            proof {
                let xi = self.x as int;
                let yi = self.y as int;
                let l = sqrt_floor(xi * xi + yi * yi);
                lemma_div_trunc_bound(xi * 1000, l, 1000);
                lemma_div_trunc_bound(yi * 1000, l, 1000);
            }
            Vec2i { x: nx, y: ny }
        }
    }
}

/// `|x| <= m` gives `x * x <= m * m`.
pub proof fn lemma_sq_bound(x: int, m: int)
    requires
        -m <= x <= m,
    ensures
        0 <= x * x <= m * m,
{
    assert(0 <= x * x <= m * m) by (nonlinear_arith)
        requires
            -m <= x <= m,
    ;
}

/// Each component of a vector is bounded by the floor length:
/// `|x| <= sqrt_floor(x*x + y*y)`, and `x * 1000` by `len * 1000`.
proof fn lemma_component_le_len(x: int, y: int)
    requires
        !(x == 0 && y == 0),
    ensures
        ({
            let l = sqrt_floor(x * x + y * y);
            -(l * 1000) <= x * 1000 <= l * 1000 && -(l * 1000) <= y * 1000 <= l * 1000
        }),
{
    let s = x * x + y * y;
    let l = sqrt_floor(s);
    assert(s >= 0) by (nonlinear_arith)
        requires
            s == x * x + y * y,
    ;
    lemma_sqrt_floor_exists(s);
    assert(is_sqrt_floor(s, l));
    assert(-l <= x <= l && -l <= y <= l) by (nonlinear_arith)
        requires
            0 <= l,
            l * l <= s,
            s < (l + 1) * (l + 1),
            s == x * x + y * y,
    ;
    assert(-(l * 1000) <= x * 1000 <= l * 1000) by (nonlinear_arith)
        requires
            -l <= x <= l,
    ;
    assert(-(l * 1000) <= y * 1000 <= l * 1000) by (nonlinear_arith)
        requires
            -l <= y <= l,
    ;
}

/// One kinematic step: where a point moving at `vel` milliunits per second
/// stands after `dt_ms` milliseconds.
pub fn step_by(pos: &Vec2i, vel: &Vec2i, dt_ms: u32) -> (r: Vec2i)
    requires
        bounded(*pos, COORD_LIMIT as int),
        bounded(*vel, 10_000_000),
        dt_ms <= 1000,
    ensures
        r.x == pos.x + div_trunc(vel.x * dt_ms, 1000),
        r.y == pos.y + div_trunc(vel.y * dt_ms, 1000),
        bounded(r, COORD_LIMIT + 10_000_000),
{
    proof {
        let vx = vel.x as int;
        let vy = vel.y as int;
        let d = dt_ms as int;
        assert(-(1000 * 10_000_000) <= vx * d <= 1000 * 10_000_000 && -(1000 * 10_000_000) <= vy
            * d <= 1000 * 10_000_000) by (nonlinear_arith)
            requires
                -10_000_000 <= vx <= 10_000_000,
                -10_000_000 <= vy <= 10_000_000,
                0 <= d <= 1000,
        ;
        lemma_div_trunc_bound(vx * d, 1000, 10_000_000);
        lemma_div_trunc_bound(vy * d, 1000, 10_000_000);
    }
    let dx = div_trunc64(vel.x * (dt_ms as i64), 1000);
    let dy = div_trunc64(vel.y * (dt_ms as i64), 1000);
    Vec2i { x: pos.x + dx, y: pos.y + dy }
}

} // verus!
