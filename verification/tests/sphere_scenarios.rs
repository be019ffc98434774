//! End-to-end intersection queries against a sphere, with exact fixed-point
//! expectations (1000 steps per spatial unit).

use ray_sphere::hittable::Hittable;
use ray_sphere::interval::Interval;
use ray_sphere::material::MaterialId;
use ray_sphere::ray::Ray;
use ray_sphere::sphere::Sphere;
use ray_sphere::vec3::Vec3;

const FAR: i64 = 1_000_000_000_000;

fn unit_sphere_half() -> Sphere {
    // center (0, 0, -1), radius 0.5
    Sphere::new(Vec3::new(0, 0, -1000), 500, MaterialId::new(7))
}

#[test]
fn direct_hit_from_outside() {
    // ray from the origin straight at the sphere: near root at t = 0.5
    let s = unit_sphere_half();
    let ray = Ray::new(Vec3::new(0, 0, 0), Vec3::new(0, 0, -1000));
    let h = s.hit(&ray, Interval::new(0, FAR)).expect("must hit");
    assert_eq!(h.t, 500);
    assert_eq!(h.position, Vec3::new(0, 0, -500));
    assert_eq!(h.normal, Vec3::new(0, 0, 1000));
    assert!(h.front_face);
    assert_eq!(h.material, MaterialId::new(7));
    // the struck point lies exactly on the surface here
    let offset = Vec3::new(h.position.x, h.position.y, h.position.z + 1000);
    assert_eq!(Vec3::dot(&offset, &offset), 500 * 500);
}

#[test]
fn hit_from_inside_takes_far_root() {
    // ray starting at the center: the near root is behind the interval,
    // the far root at t = 0.5 is taken; the normal is flipped inward
    let s = unit_sphere_half();
    let ray = Ray::new(Vec3::new(0, 0, -1000), Vec3::new(0, 0, -1000));
    let h = s.hit(&ray, Interval::new(1, FAR)).expect("must hit");
    assert_eq!(h.t, 500);
    assert_eq!(h.position, Vec3::new(0, 0, -1500));
    assert_eq!(h.normal, Vec3::new(0, 0, 1000));
    assert!(!h.front_face);
}

#[test]
fn miss_returns_none() {
    // ray far off axis never meets the sphere
    let s = unit_sphere_half();
    let ray = Ray::new(Vec3::new(2000, 2000, 0), Vec3::new(0, 0, -1000));
    assert!(s.hit(&ray, Interval::new(0, FAR)).is_none());
}

#[test]
fn hit_outside_interval_returns_none() {
    // a valid intersection at t = 0.5 is discarded by a (0, 0.3) interval
    let s = unit_sphere_half();
    let ray = Ray::new(Vec3::new(0, 0, 0), Vec3::new(0, 0, -1000));
    assert!(s.hit(&ray, Interval::new(0, 300)).is_none());
}

#[test]
fn near_root_preferred_over_far() {
    // both roots (0.5 and 1.5) are inside the interval: the smaller wins
    let s = unit_sphere_half();
    let ray = Ray::new(Vec3::new(0, 0, 0), Vec3::new(0, 0, -1000));
    let h = s.hit(&ray, Interval::new(0, FAR)).expect("must hit");
    assert_eq!(h.t, 500);
    let h2 = s.hit(&ray, Interval::new(600, FAR)).expect("must hit far root");
    assert_eq!(h2.t, 1500);
}

#[test]
fn tangent_ray_single_root() {
    // ray grazing a unit sphere one unit off axis: discriminant zero,
    // single root at t = 2, normal perpendicular to the direction
    let s = Sphere::new(Vec3::new(0, 0, -2000), 1000, MaterialId::new(0));
    let ray = Ray::new(Vec3::new(0, 1000, 0), Vec3::new(0, 0, -1000));
    let h = s.hit(&ray, Interval::new(0, FAR)).expect("tangent must hit");
    assert_eq!(h.t, 2000);
    assert_eq!(h.position, Vec3::new(0, 1000, -2000));
    assert_eq!(h.normal, Vec3::new(0, 1000, 0));
    assert!(h.front_face);
}

#[test]
fn tangent_ray_outside_interval() {
    let s = Sphere::new(Vec3::new(0, 0, -2000), 1000, MaterialId::new(0));
    let ray = Ray::new(Vec3::new(0, 1000, 0), Vec3::new(0, 0, -1000));
    assert!(s.hit(&ray, Interval::new(0, 1500)).is_none());
}

#[test]
fn origin_on_surface_excluded_by_strict_min() {
    // the ray starts exactly on the surface: the near root t = 0 is not
    // strictly inside (0, far), so the exit point at t = 1 is reported
    let s = Sphere::new(Vec3::new(0, 0, -1500), 500, MaterialId::new(3));
    let ray = Ray::new(Vec3::new(0, 0, -1000), Vec3::new(0, 0, -1000));
    let h = s.hit(&ray, Interval::new(0, FAR)).expect("must hit exit point");
    assert_eq!(h.t, 1000);
    assert_eq!(h.position, Vec3::new(0, 0, -2000));
    assert_eq!(h.normal, Vec3::new(0, 0, 1000));
    assert!(!h.front_face);
}

#[test]
fn off_axis_hit_rounds_down() {
    // a slanted direction: the discriminant is not a perfect square and the
    // root is not exact, so both roundings (square root and division) show
    let s = Sphere::new(Vec3::new(0, 0, -2000), 1000, MaterialId::new(1));
    let ray = Ray::new(Vec3::new(0, 0, 0), Vec3::new(0, 300, -1000));
    let h = s.hit(&ray, Interval::new(0, FAR)).expect("must hit");
    assert_eq!(h.t, 1051);
    assert_eq!(h.position, Vec3::new(0, 315, -1051));
    assert_eq!(h.normal, Vec3::new(0, 315, 949));
    assert!(h.front_face);
    // normal opposes the incoming ray
    assert!(h.normal.y as i128 * 300 + h.normal.z as i128 * -1000 <= 0);
    // and is unit length up to fixed-point rounding
    let len_sq = Vec3::dot(&h.normal, &h.normal);
    assert!((1_000_000 - len_sq).abs() < 2_000);
}

#[test]
fn large_coordinates_stay_exact() {
    // a small sphere far from the origin, hit along the x axis
    let s = Sphere::new(Vec3::new(999_000, 0, 0), 1000, MaterialId::new(9));
    let ray = Ray::new(Vec3::new(0, 0, 0), Vec3::new(1000, 0, 0));
    let h = s.hit(&ray, Interval::new(0, FAR)).expect("must hit");
    assert_eq!(h.t, 998_000);
    assert_eq!(h.position, Vec3::new(998_000, 0, 0));
    assert_eq!(h.normal, Vec3::new(-1000, 0, 0));
    assert!(h.front_face);
}

#[test]
fn material_reference_is_forwarded() {
    let s = Sphere::new(Vec3::new(0, 0, -1000), 500, MaterialId::new(42));
    let ray = Ray::new(Vec3::new(0, 0, 0), Vec3::new(0, 0, -1000));
    let h = s.hit(&ray, Interval::new(0, FAR)).expect("must hit");
    assert_eq!(h.material.index, 42);
}
