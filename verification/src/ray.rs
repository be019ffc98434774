//! Parametric rays: `origin + t * direction`.

use crate::math::{div_floor, lemma_div_abs_bound, lemma_mul_bounds};
use crate::vec3::{dot3, Vec3};
use vstd::prelude::*;

verus! {

/// Components of every point `at` returns stay within this bound: a
/// coordinate limit plus the largest parameter times the largest direction
/// component, divided by the fixed-point scale.
pub const POS_RANGE: i64 = 1_100_000_000_000_000;

/// A ray, constructed per intersection query and immutable thereafter.  The
/// direction need not be unit length — the intersection arithmetic divides
/// by its squared length — but it must not be the zero vector.
#[derive(Clone, Copy, Debug, PartialEq, Eq, Structural)]
pub struct Ray {
    pub origin: Vec3,
    pub direction: Vec3,
}

impl Ray {
    /// Origin and direction are within the coordinate limit.
    pub open spec fn wf(self) -> bool {
        &&& self.origin.in_range(crate::COORD_LIMIT as int)
        &&& self.direction.in_range(crate::COORD_LIMIT as int)
    }

    /// Squared length of the direction, the `a` coefficient of the
    /// intersection quadratic.  Zero exactly for the zero direction.
    pub open spec fn dir_len_sq(self) -> int {
        dot3(self.direction, self.direction)
    }

    pub fn new(origin: Vec3, direction: Vec3) -> (r: Ray)
        ensures
            r == (Ray { origin, direction }),
    {
        Ray { origin, direction }
    }

    pub fn origin(&self) -> (v: Vec3)
        ensures
            v == self.origin,
    {
        self.origin
    }

    pub fn direction(&self) -> (v: Vec3)
        ensures
            v == self.direction,
    {
        self.direction
    }

    /// The point at parameter `t`: each coordinate is the origin coordinate
    /// plus `(t * direction) / SCALE`, rounded toward negative infinity
    /// (the two fixed-point factors carry one scale factor too many).
    pub fn at(&self, t: i64) -> (p: Vec3)
        requires
            self.wf(),
            -crate::PARAM_LIMIT <= t <= crate::PARAM_LIMIT,
        ensures
            p.x == self.origin.x + (t * self.direction.x) / (crate::SCALE as int),
            p.y == self.origin.y + (t * self.direction.y) / (crate::SCALE as int),
            p.z == self.origin.z + (t * self.direction.z) / (crate::SCALE as int),
            p.in_range(POS_RANGE as int),
    {
        proof {
            lemma_mul_bounds(
                t as int,
                self.direction.x as int,
                crate::PARAM_LIMIT as int,
                crate::COORD_LIMIT as int,
            );
            lemma_mul_bounds(
                t as int,
                self.direction.y as int,
                crate::PARAM_LIMIT as int,
                crate::COORD_LIMIT as int,
            );
            lemma_mul_bounds(
                t as int,
                self.direction.z as int,
                crate::PARAM_LIMIT as int,
                crate::COORD_LIMIT as int,
            );
        }
        let nx: i64 = t * self.direction.x;
        let ny: i64 = t * self.direction.y;
        let nz: i64 = t * self.direction.z;
        proof {
            lemma_div_abs_bound(nx as int, crate::SCALE as int, 1_000_000_000_000_000_000);
            lemma_div_abs_bound(ny as int, crate::SCALE as int, 1_000_000_000_000_000_000);
            lemma_div_abs_bound(nz as int, crate::SCALE as int, 1_000_000_000_000_000_000);
        }
        let qx: i64 = div_floor(nx, crate::SCALE);
        let qy: i64 = div_floor(ny, crate::SCALE);
        let qz: i64 = div_floor(nz, crate::SCALE);
        Vec3 { x: self.origin.x + qx, y: self.origin.y + qy, z: self.origin.z + qz }
    }
}

} // verus!
