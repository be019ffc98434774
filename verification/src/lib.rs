//! Geometric core of a ray tracer: the test that decides whether and where a
//! ray strikes a sphere, within a pluggable scene-intersection framework.
//!
//! All geometry is carried in fixed-point arithmetic so that every result is
//! exact and provable: a coordinate, radius or ray parameter is an `i64`
//! counting steps of `1 / SCALE` of a spatial unit.  A sphere of radius one
//! half is therefore written with `radius == 500`, and a hit at parameter one
//! half comes back as `t == 500`.
//!
//! The entry point is the [`hittable::Hittable`] capability, implemented by
//! [`sphere::Sphere`] through the closed-form ray/quadric intersection.  Rays,
//! parameter intervals and hit records are the supporting value types.

use vstd::prelude::*;

pub mod hittable;
pub mod interval;
pub mod material;
pub mod math;
pub mod ray;
pub mod sphere;
pub mod vec3;

verus! {

/// Number of fixed-point steps in one spatial unit.
pub const SCALE: i64 = 1000;

/// Largest magnitude allowed for a coordinate of a ray origin, a ray
/// direction or a sphere center, and for a sphere radius (one million steps,
/// one thousand spatial units).  The bound keeps every intermediate product
/// of the intersection arithmetic inside the machine integer range.
pub const COORD_LIMIT: i64 = 1_000_000;

/// Largest magnitude allowed for an interval endpoint and hence for a ray
/// parameter handed to [`ray::Ray::at`] (one billion spatial units; in
/// practice an unbounded upper end).
pub const PARAM_LIMIT: i64 = 1_000_000_000_000;

/// A point in space, held as a fixed-point vector.
pub type Point = crate::vec3::Vec3;

} // verus!
