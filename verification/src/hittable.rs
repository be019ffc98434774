//! The intersectable-object capability and the record a successful
//! intersection produces.

use crate::interval::Interval;
use crate::material::MaterialId;
use crate::ray::Ray;
use crate::vec3::{dot3, Vec3, WIDE_RANGE};
use vstd::prelude::*;

verus! {

/// The outcome of one successful intersection: where the ray struck the
/// surface, the surface normal oriented against the incoming ray, the
/// material of the surface, the ray parameter of the strike, and whether the
/// outer face was hit.  Constructed once per hit, immutable, owned by the
/// caller.
#[derive(Clone, Copy, Debug, PartialEq, Eq, Structural)]
pub struct HitResult {
    pub position: Vec3,
    pub normal: Vec3,
    pub material: MaterialId,
    pub t: i64,
    pub front_face: bool,
}

impl HitResult {
    /// Builds the record for a hit at parameter `t` and point `position`,
    /// orienting the normal.  `outward_normal` must point away from the
    /// surface's outside; when it already opposes the ray direction the ray
    /// struck the outer face and the normal is kept, otherwise the ray came
    /// from inside and the normal is flipped, so that shading always
    /// receives a normal pointing against the incoming ray.
    pub fn new(ray: &Ray, position: Vec3, outward_normal: Vec3, material: MaterialId, t: i64) -> (h:
        HitResult)
        requires
            ray.wf(),
            outward_normal.in_range(WIDE_RANGE as int),
        ensures
            h.position == position,
            h.material == material,
            h.t == t,
            h.front_face == (dot3(outward_normal, ray.direction) <= 0),
            h.front_face ==> h.normal == outward_normal,
            !h.front_face ==> h.normal.x == -outward_normal.x && h.normal.y == -outward_normal.y
                && h.normal.z == -outward_normal.z,
    {
        let opposed: i128 = Vec3::dot_wide(&outward_normal, &ray.direction());
        if opposed > 0 {
            HitResult {
                position,
                normal: outward_normal.negate(),
                material,
                t,
                front_face: false,
            }
        } else {
            HitResult { position, normal: outward_normal, material, t, front_face: true }
        }
    }
}

/// The capability every intersectable object offers: a pure query for the
/// closest qualifying intersection of a ray within a parameter interval.
///
/// `hit_req` is what the object asks of a query; `hit_some` says on exactly
/// which queries a record comes back; `hit_matches` pins every field of the
/// record that does.  An implementation defines the three and proves its
/// `hit` against them.
pub trait Hittable: Sized {
    /// What the object requires of `ray` and `interval` for the query to be
    /// meaningful.
    spec fn hit_req(&self, ray: Ray, interval: Interval) -> bool;

    /// Whether the query yields an intersection.
    spec fn hit_some(&self, ray: Ray, interval: Interval) -> bool;

    /// Full description of the record the query yields.
    spec fn hit_matches(&self, ray: Ray, interval: Interval, h: HitResult) -> bool;

    /// Returns the closest intersection of `ray` with this object whose
    /// parameter lies strictly inside `interval`, or nothing when no
    /// intersection qualifies.  A pure query: neither the ray, the interval
    /// nor the object changes.
    fn hit(&self, ray: &Ray, interval: Interval) -> (r: Option<HitResult>)
        requires
            self.hit_req(*ray, interval),
        ensures
            (r is Some) == self.hit_some(*ray, interval),
            (r matches Some(h) ==> self.hit_matches(*ray, interval, h)),
    ;
}

} // verus!
