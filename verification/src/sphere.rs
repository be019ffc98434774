//! The sphere primitive and its closed-form ray/quadric intersection.
//!
//! Substituting the ray `origin + t * direction` into the sphere equation
//! `|p - center| == radius` yields the quadratic
//! `a * t^2 + 2 * half_b * t + c == 0` with
//! `a == |direction|^2`, `half_b == dot(origin - center, direction)` and
//! `c == |origin - center|^2 - radius^2`.  The half-angle-reduced form halves
//! the multiplications in the discriminant `half_b^2 - a * c`; the roots are
//! `(-half_b +- sqrt(discriminant)) / a`.
//!
//! In fixed-point terms, with coordinates in steps of `1 / SCALE`: the
//! coefficients carry two scale factors each, the discriminant four, its
//! rounded square root two again, and the final division by `a` restores a
//! parameter in single-scale steps (rounded toward negative infinity).

use crate::hittable::{HitResult, Hittable};
use crate::interval::Interval;
use crate::material::MaterialId;
use crate::math::{
    div_floor, isqrt, lemma_div_abs_bound, lemma_mul_bounds, lemma_mul_le_mono, lemma_neg_mul,
    lemma_sqrt_floor_exists, lemma_sqrt_floor_is, sqrt_floor,
};
use crate::ray::Ray;
use crate::vec3::{dot3, Vec3};
use crate::Point;
use vstd::arithmetic::div_mod::lemma_div_is_ordered;
use vstd::prelude::*;

verus! {

/// The concrete intersectable primitive: a center, a positive radius, and a
/// shared reference to the material of its surface.  Constructed once when
/// the scene is assembled and immutable afterward, so any number of
/// concurrent queries may share it.
#[derive(Clone, Copy, Debug, PartialEq, Eq, Structural)]
pub struct Sphere {
    pub center: Point,
    pub radius: i64,
    pub material: MaterialId,
}

impl Sphere {
    /// The center is within the coordinate limit and the radius is positive
    /// and within it too.
    pub open spec fn wf(self) -> bool {
        &&& self.center.in_range(crate::COORD_LIMIT as int)
        &&& 1 <= self.radius <= crate::COORD_LIMIT
    }

    /// Half the linear coefficient of the intersection quadratic:
    /// `dot(origin - center, direction)`.
    pub open spec fn spec_half_b(self, ray: Ray) -> int {
        (ray.origin.x - self.center.x) * ray.direction.x + (ray.origin.y - self.center.y)
            * ray.direction.y + (ray.origin.z - self.center.z) * ray.direction.z
    }

    /// The constant coefficient: `|origin - center|^2 - radius^2`.
    pub open spec fn spec_c(self, ray: Ray) -> int {
        (ray.origin.x - self.center.x) * (ray.origin.x - self.center.x) + (ray.origin.y
            - self.center.y) * (ray.origin.y - self.center.y) + (ray.origin.z - self.center.z)
            * (ray.origin.z - self.center.z) - self.radius * self.radius
    }

    /// The discriminant `half_b^2 - a * c`.  Negative exactly when the ray's
    /// line misses the sphere.
    pub open spec fn spec_disc(self, ray: Ray) -> int {
        self.spec_half_b(ray) * self.spec_half_b(ray) - ray.dir_len_sq() * self.spec_c(ray)
    }

    /// The smaller root of the quadratic — the intersection nearer the ray
    /// origin along its direction — in fixed-point steps, rounded toward
    /// negative infinity.
    pub open spec fn spec_near_root(self, ray: Ray) -> int {
        (crate::SCALE * (-self.spec_half_b(ray) - sqrt_floor(self.spec_disc(ray))))
            / ray.dir_len_sq()
    }

    /// The larger root, rounded the same way.
    pub open spec fn spec_far_root(self, ray: Ray) -> int {
        (crate::SCALE * (-self.spec_half_b(ray) + sqrt_floor(self.spec_disc(ray))))
            / ray.dir_len_sq()
    }

    /// The parameter a successful query reports: the near root when the
    /// interval surrounds it, otherwise the far root.
    pub open spec fn spec_hit_t(self, ray: Ray, interval: Interval) -> int {
        if interval.spec_surrounds(self.spec_near_root(ray)) {
            self.spec_near_root(ray)
        } else {
            self.spec_far_root(ray)
        }
    }

    /// `x` component of the uncorrected outward normal at `p`: the offset
    /// from the center divided by the radius in fixed point, so a unit-length
    /// vector up to rounding when `p` lies on the surface.
    pub open spec fn spec_outward_x(self, p: Vec3) -> int {
        (crate::SCALE * (p.x - self.center.x)) / (self.radius as int)
    }

    /// `y` component of the uncorrected outward normal at `p`.
    pub open spec fn spec_outward_y(self, p: Vec3) -> int {
        (crate::SCALE * (p.y - self.center.y)) / (self.radius as int)
    }

    /// `z` component of the uncorrected outward normal at `p`.
    pub open spec fn spec_outward_z(self, p: Vec3) -> int {
        (crate::SCALE * (p.z - self.center.z)) / (self.radius as int)
    }

    /// Dot product of the uncorrected outward normal at `p` with the ray
    /// direction: positive when the ray strikes the surface from inside.
    pub open spec fn spec_outward_dot(self, ray: Ray, p: Vec3) -> int {
        self.spec_outward_x(p) * ray.direction.x + self.spec_outward_y(p) * ray.direction.y
            + self.spec_outward_z(p) * ray.direction.z
    }

    pub fn new(center: Point, radius: i64, material: MaterialId) -> (s: Sphere)
        requires
            center.in_range(crate::COORD_LIMIT as int),
            1 <= radius <= crate::COORD_LIMIT,
        ensures
            s == (Sphere { center, radius, material }),
            s.wf(),
    {
        Sphere { center, radius, material }
    }
}

impl Hittable for Sphere {
    /// The sphere and interval are well formed, every coordinate is within
    /// the coordinate limit, and the ray direction is not the zero vector.
    open spec fn hit_req(&self, ray: Ray, interval: Interval) -> bool {
        &&& self.wf()
        &&& ray.wf()
        &&& interval.wf()
        &&& ray.dir_len_sq() > 0
    }

    /// A record comes back exactly when the quadratic has real roots and the
    /// interval surrounds at least one of them.
    open spec fn hit_some(&self, ray: Ray, interval: Interval) -> bool {
        &&& self.spec_disc(ray) >= 0
        &&& (interval.spec_surrounds(self.spec_near_root(ray)) || interval.spec_surrounds(
            self.spec_far_root(ray),
        ))
    }

    /// The record reports the chosen root, the point of the ray at that
    /// root, the outward normal there — kept when it opposes the ray
    /// direction and flipped otherwise, with `front_face` saying which — and
    /// the sphere's material.
    open spec fn hit_matches(&self, ray: Ray, interval: Interval, h: HitResult) -> bool {
        &&& h.t == self.spec_hit_t(ray, interval)
        &&& h.position.x == ray.origin.x + (h.t * ray.direction.x) / (crate::SCALE as int)
        &&& h.position.y == ray.origin.y + (h.t * ray.direction.y) / (crate::SCALE as int)
        &&& h.position.z == ray.origin.z + (h.t * ray.direction.z) / (crate::SCALE as int)
        &&& h.material == self.material
        &&& h.front_face == (self.spec_outward_dot(ray, h.position) <= 0)
        &&& (h.front_face ==> h.normal.x == self.spec_outward_x(h.position) && h.normal.y
            == self.spec_outward_y(h.position) && h.normal.z == self.spec_outward_z(h.position))
        &&& (!h.front_face ==> h.normal.x == -self.spec_outward_x(h.position) && h.normal.y
            == -self.spec_outward_y(h.position) && h.normal.z == -self.spec_outward_z(h.position))
    }

    fn hit(&self, ray: &Ray, interval: Interval) -> (r: Option<HitResult>) {
        let oc = ray.origin().minus(&self.center);
        let a: i64 = ray.direction().len_squared();
        let half_b: i64 = Vec3::dot(&oc, &ray.direction());
        proof {
            lemma_mul_bounds(oc.x as int, oc.x as int, 2_000_000, 2_000_000);
            lemma_mul_bounds(oc.y as int, oc.y as int, 2_000_000, 2_000_000);
            lemma_mul_bounds(oc.z as int, oc.z as int, 2_000_000, 2_000_000);
            lemma_mul_bounds(oc.x as int, ray.direction.x as int, 2_000_000, 1_000_000);
            lemma_mul_bounds(oc.y as int, ray.direction.y as int, 2_000_000, 1_000_000);
            lemma_mul_bounds(oc.z as int, ray.direction.z as int, 2_000_000, 1_000_000);
            lemma_mul_bounds(ray.direction.x as int, ray.direction.x as int, 1_000_000, 1_000_000);
            lemma_mul_bounds(ray.direction.y as int, ray.direction.y as int, 1_000_000, 1_000_000);
            lemma_mul_bounds(ray.direction.z as int, ray.direction.z as int, 1_000_000, 1_000_000);
            lemma_mul_bounds(self.radius as int, self.radius as int, 1_000_000, 1_000_000);
        }
        let rr: i64 = self.radius * self.radius;
        let c: i64 = oc.len_squared() - rr;
        proof {
            assert(self.spec_half_b(*ray) == half_b as int);
            assert(self.spec_c(*ray) == c as int);
            assert(ray.dir_len_sq() == a as int);
        }
        let hb_w: i128 = half_b as i128;
        let a_w: i128 = a as i128;
        let c_w: i128 = c as i128;
        proof {
            lemma_mul_bounds(hb_w as int, hb_w as int, 6_000_000_000_000, 6_000_000_000_000);
            lemma_mul_bounds(a_w as int, c_w as int, 3_000_000_000_000, 14_000_000_000_000);
        }
        let discriminant: i128 = hb_w * hb_w - a_w * c_w;
        proof {
            assert(self.spec_disc(*ray) == discriminant as int);
        }
        if discriminant < 0 {
            return None;
        }
        let sqrtd: i128 = isqrt(discriminant);
        proof {
            lemma_sqrt_floor_is(discriminant as int, sqrtd as int);
        }
        let sq: i64 = sqrtd as i64;
        let neg_hb: i64 = -half_b;
        proof {
            lemma_mul_bounds(
                crate::SCALE as int,
                neg_hb as int - sq as int,
                1000,
                15_000_000_000_000,
            );
            lemma_mul_bounds(
                crate::SCALE as int,
                neg_hb as int + sq as int,
                1000,
                15_000_000_000_000,
            );
        }
        let num_near: i64 = crate::SCALE * (neg_hb - sq);
        let mut root: i64 = div_floor(num_near, a);
        proof {
            assert(self.spec_near_root(*ray) == root as int);
        }
        if !interval.surrounds(root) {
            let num_far: i64 = crate::SCALE * (neg_hb + sq);
            root = div_floor(num_far, a);
            proof {
                assert(self.spec_far_root(*ray) == root as int);
            }
            if !interval.surrounds(root) {
                return None;
            }
        }
        let t: i64 = root;
        proof {
            assert(self.hit_some(*ray, interval));
            assert(self.spec_hit_t(*ray, interval) == t as int);
        }
        let location = ray.at(t);
        let diff = location.minus(&self.center);
        proof {
            lemma_mul_bounds(crate::SCALE as int, diff.x as int, 1000, 1_200_000_000_000_000);
            lemma_mul_bounds(crate::SCALE as int, diff.y as int, 1000, 1_200_000_000_000_000);
            lemma_mul_bounds(crate::SCALE as int, diff.z as int, 1000, 1_200_000_000_000_000);
            lemma_div_abs_bound(
                crate::SCALE as int * diff.x as int,
                self.radius as int,
                1_200_000_000_000_000_000,
            );
            lemma_div_abs_bound(
                crate::SCALE as int * diff.y as int,
                self.radius as int,
                1_200_000_000_000_000_000,
            );
            lemma_div_abs_bound(
                crate::SCALE as int * diff.z as int,
                self.radius as int,
                1_200_000_000_000_000_000,
            );
        }
        let outward = diff.div_fixed(self.radius);
        let h = HitResult::new(ray, location, outward, self.material, t);
        proof {
            assert(self.spec_outward_x(h.position) == outward.x as int);
            assert(self.spec_outward_y(h.position) == outward.y as int);
            assert(self.spec_outward_z(h.position) == outward.z as int);
            assert(self.spec_outward_dot(*ray, h.position) == dot3(outward, ray.direction));
            assert(self.hit_matches(*ray, interval, h));
        }
        Some(h)
    }
}

/// Every record a sphere reports lies strictly inside the caller's interval.
pub proof fn lemma_hit_inside_interval(s: Sphere, ray: Ray, interval: Interval, h: HitResult)
    requires
        s.hit_req(ray, interval),
        s.hit_some(ray, interval),
        s.hit_matches(ray, interval, h),
    ensures
        interval.spec_surrounds(h.t as int),
{
}

/// A ray whose line misses the sphere — negative discriminant — never
/// produces a record, whatever the interval.
pub proof fn lemma_miss_is_none(s: Sphere, ray: Ray, interval: Interval)
    requires
        s.hit_req(ray, interval),
        s.spec_disc(ray) < 0,
    ensures
        !s.hit_some(ray, interval),
{
}

/// A tangent ray — discriminant zero — has one root only, and produces a
/// record exactly when the interval surrounds that single root.
pub proof fn lemma_tangent(s: Sphere, ray: Ray, interval: Interval)
    requires
        s.hit_req(ray, interval),
        s.spec_disc(ray) == 0,
    ensures
        s.spec_near_root(ray) == s.spec_far_root(ray),
        s.hit_some(ray, interval) == interval.spec_surrounds(s.spec_near_root(ray)),
{
    lemma_sqrt_floor_is(0, 0);
}

/// The roots come ordered, and the reported parameter is the smaller root
/// when it is in range, otherwise the larger root, otherwise nothing.
pub proof fn lemma_near_root_preferred(s: Sphere, ray: Ray, interval: Interval)
    requires
        s.hit_req(ray, interval),
        s.spec_disc(ray) >= 0,
    ensures
        s.spec_near_root(ray) <= s.spec_far_root(ray),
        interval.spec_surrounds(s.spec_near_root(ray)) ==> s.hit_some(ray, interval)
            && s.spec_hit_t(ray, interval) == s.spec_near_root(ray),
        !interval.spec_surrounds(s.spec_near_root(ray)) && interval.spec_surrounds(
            s.spec_far_root(ray),
        ) ==> s.hit_some(ray, interval) && s.spec_hit_t(ray, interval) == s.spec_far_root(ray),
        !interval.spec_surrounds(s.spec_near_root(ray)) && !interval.spec_surrounds(
            s.spec_far_root(ray),
        ) ==> !s.hit_some(ray, interval),
{
    lemma_sqrt_floor_exists(s.spec_disc(ray));
    let hb = s.spec_half_b(ray);
    let sq = sqrt_floor(s.spec_disc(ray));
    lemma_mul_le_mono(crate::SCALE as int, -hb - sq, -hb + sq);
    lemma_div_is_ordered(
        crate::SCALE as int * (-hb - sq),
        crate::SCALE as int * (-hb + sq),
        ray.dir_len_sq(),
    );
}

/// After front-face correction the reported normal opposes the incoming ray:
/// its dot product with the ray direction is never positive.
pub proof fn lemma_normal_opposes_ray(s: Sphere, ray: Ray, interval: Interval, h: HitResult)
    requires
        s.hit_req(ray, interval),
        s.hit_matches(ray, interval, h),
    ensures
        dot3(h.normal, ray.direction) <= 0,
{
    if !h.front_face {
        lemma_neg_mul(s.spec_outward_x(h.position), ray.direction.x as int);
        lemma_neg_mul(s.spec_outward_y(h.position), ray.direction.y as int);
        lemma_neg_mul(s.spec_outward_z(h.position), ray.direction.z as int);
    }
}

/// `front_face` is set exactly when the uncorrected outward normal already
/// opposed the ray direction.
pub proof fn lemma_front_face_meaning(s: Sphere, ray: Ray, interval: Interval, h: HitResult)
    requires
        s.hit_matches(ray, interval, h),
    ensures
        h.front_face == (s.spec_outward_dot(ray, h.position) <= 0),
{
}

} // verus!
