//! Three-component fixed-point vectors: the value type behind points,
//! directions and surface normals.

use crate::math::{div_floor, lemma_mul_bounds};
use vstd::prelude::*;

verus! {

/// Components a vector may have when it enters a dot product: three products
/// of this size still fit in `i64`.
pub const DOT_RANGE: i64 = 1_000_000_000;

/// Components a vector may have when it enters a wide dot product, carried in
/// `i128` (large enough for every surface normal this crate produces).
pub const WIDE_RANGE: i64 = 3_000_000_000_000_000_000;

/// Components a vector may have when it is divided by a scalar: the
/// fixed-point quotient scales the component by `SCALE` first.
pub const DIV_RANGE: i64 = 9_000_000_000_000_000;

/// A vector of three fixed-point coordinates, each counting steps of
/// `1 / SCALE` of a spatial unit.  Immutable value semantics: every
/// operation returns a new vector.
#[derive(Clone, Copy, Debug, PartialEq, Eq, Structural)]
pub struct Vec3 {
    pub x: i64,
    pub y: i64,
    pub z: i64,
}

/// Mathematical dot product of two vectors, over unbounded integers.
pub open spec fn dot3(u: Vec3, v: Vec3) -> int {
    u.x * v.x + u.y * v.y + u.z * v.z
}

impl Vec3 {
    /// Every component lies within `b` of zero.
    pub open spec fn in_range(self, b: int) -> bool {
        &&& -b <= self.x <= b
        &&& -b <= self.y <= b
        &&& -b <= self.z <= b
    }

    pub fn new(x: i64, y: i64, z: i64) -> (v: Vec3)
        ensures
            v == (Vec3 { x, y, z }),
    {
        Vec3 { x, y, z }
    }

    /// Component-wise sum.
    pub fn plus(&self, other: &Vec3) -> (r: Vec3)
        requires
            i64::MIN <= self.x + other.x <= i64::MAX,
            i64::MIN <= self.y + other.y <= i64::MAX,
            i64::MIN <= self.z + other.z <= i64::MAX,
        ensures
            r.x == self.x + other.x,
            r.y == self.y + other.y,
            r.z == self.z + other.z,
    {
        Vec3 { x: self.x + other.x, y: self.y + other.y, z: self.z + other.z }
    }

    /// Component-wise difference.
    pub fn minus(&self, other: &Vec3) -> (r: Vec3)
        requires
            i64::MIN <= self.x - other.x <= i64::MAX,
            i64::MIN <= self.y - other.y <= i64::MAX,
            i64::MIN <= self.z - other.z <= i64::MAX,
        ensures
            r.x == self.x - other.x,
            r.y == self.y - other.y,
            r.z == self.z - other.z,
    {
        Vec3 { x: self.x - other.x, y: self.y - other.y, z: self.z - other.z }
    }

    /// Component-wise negation.
    pub fn negate(&self) -> (r: Vec3)
        requires
            i64::MIN < self.x,
            i64::MIN < self.y,
            i64::MIN < self.z,
        ensures
            r.x == -self.x,
            r.y == -self.y,
            r.z == -self.z,
    {
        Vec3 { x: -self.x, y: -self.y, z: -self.z }
    }

    /// Dot product of two moderately sized vectors.
    pub fn dot(u: &Vec3, v: &Vec3) -> (r: i64)
        requires
            u.in_range(DOT_RANGE as int),
            v.in_range(DOT_RANGE as int),
        ensures
            r == dot3(*u, *v),
    {
        proof {
            lemma_mul_bounds(u.x as int, v.x as int, DOT_RANGE as int, DOT_RANGE as int);
            lemma_mul_bounds(u.y as int, v.y as int, DOT_RANGE as int, DOT_RANGE as int);
            lemma_mul_bounds(u.z as int, v.z as int, DOT_RANGE as int, DOT_RANGE as int);
        }
        u.x * v.x + u.y * v.y + u.z * v.z
    }

    /// Dot product in `i128`, for one large factor (such as a surface normal)
    /// against one moderate factor (such as a ray direction).
    pub fn dot_wide(u: &Vec3, v: &Vec3) -> (r: i128)
        requires
            u.in_range(WIDE_RANGE as int),
            v.in_range(DOT_RANGE as int),
        ensures
            r == dot3(*u, *v),
    {
        proof {
            lemma_mul_bounds(u.x as int, v.x as int, WIDE_RANGE as int, DOT_RANGE as int);
            lemma_mul_bounds(u.y as int, v.y as int, WIDE_RANGE as int, DOT_RANGE as int);
            lemma_mul_bounds(u.z as int, v.z as int, WIDE_RANGE as int, DOT_RANGE as int);
        }
        (u.x as i128) * (v.x as i128) + (u.y as i128) * (v.y as i128) + (u.z as i128) * (v.z
            as i128)
    }

    /// Squared length of the vector.
    pub fn len_squared(&self) -> (r: i64)
        requires
            self.in_range(DOT_RANGE as int),
        ensures
            r == dot3(*self, *self),
    {
        Vec3::dot(self, self)
    }

    /// Fixed-point division by a positive scalar: each component becomes
    /// `(SCALE * component) / divisor`, rounded toward negative infinity.
    /// Dividing a vector by a fixed-point scalar `divisor` this way yields
    /// the vector scaled by the real factor `SCALE / divisor`.
    pub fn div_fixed(&self, divisor: i64) -> (r: Vec3)
        requires
            1 <= divisor,
            self.in_range(DIV_RANGE as int),
        ensures
            r.x == (crate::SCALE * self.x) / divisor as int,
            r.y == (crate::SCALE * self.y) / divisor as int,
            r.z == (crate::SCALE * self.z) / divisor as int,
    {
        proof {
            lemma_mul_bounds(crate::SCALE as int, self.x as int, crate::SCALE as int, DIV_RANGE as int);
            lemma_mul_bounds(crate::SCALE as int, self.y as int, crate::SCALE as int, DIV_RANGE as int);
            lemma_mul_bounds(crate::SCALE as int, self.z as int, crate::SCALE as int, DIV_RANGE as int);
        }
        Vec3 {
            x: div_floor(crate::SCALE * self.x, divisor),
            y: div_floor(crate::SCALE * self.y, divisor),
            z: div_floor(crate::SCALE * self.z, divisor),
        }
    }
}

} // verus!
