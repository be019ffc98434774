//! Unit checks of the supporting value types and integer helpers.

use ray_sphere::hittable::HitResult;
use ray_sphere::interval::Interval;
use ray_sphere::material::MaterialId;
use ray_sphere::math::{div_floor, isqrt};
use ray_sphere::ray::Ray;
use ray_sphere::vec3::Vec3;

#[test]
fn vector_arithmetic() {
    let u = Vec3::new(1, -2, 3);
    let v = Vec3::new(10, 20, -30);
    assert_eq!(u.plus(&v), Vec3::new(11, 18, -27));
    assert_eq!(u.minus(&v), Vec3::new(-9, -22, 33));
    assert_eq!(u.negate(), Vec3::new(-1, 2, -3));
    assert_eq!(Vec3::dot(&u, &v), 10 - 40 - 90);
    assert_eq!(u.len_squared(), 1 + 4 + 9);
    assert_eq!(Vec3::dot_wide(&u, &v), -120);
}

#[test]
fn vector_fixed_point_division() {
    // dividing by the fixed-point scalar 2000 (the real number 2) halves
    let v = Vec3::new(2500, -2500, 1000);
    assert_eq!(v.div_fixed(2000), Vec3::new(1250, -1250, 500));
    // rounding is toward negative infinity on both signs
    let w = Vec3::new(1, -1, 3);
    assert_eq!(w.div_fixed(2000), Vec3::new(0, -1, 1));
}

#[test]
fn floor_division() {
    assert_eq!(div_floor(7, 2), 3);
    assert_eq!(div_floor(-7, 2), -4);
    assert_eq!(div_floor(6, 3), 2);
    assert_eq!(div_floor(-6, 3), -2);
    assert_eq!(div_floor(0, 5), 0);
    assert_eq!(div_floor(-1, 1_000_000), -1);
}

#[test]
fn integer_square_root() {
    assert_eq!(isqrt(0), 0);
    assert_eq!(isqrt(1), 1);
    assert_eq!(isqrt(3), 1);
    assert_eq!(isqrt(4), 2);
    assert_eq!(isqrt(249_999), 499);
    assert_eq!(isqrt(250_000), 500);
    assert_eq!(isqrt(80_999_999_999_999_999_999_999_999), 8_999_999_999_999);
}

#[test]
fn interval_surrounds_is_strict() {
    let i = Interval::new(0, 300);
    assert!(!i.surrounds(0));
    assert!(i.surrounds(1));
    assert!(i.surrounds(299));
    assert!(!i.surrounds(300));
    assert!(!i.surrounds(-5));
    assert!(!i.surrounds(400));
}

#[test]
fn ray_evaluation_rounds_down() {
    let ray = Ray::new(Vec3::new(10, 20, 30), Vec3::new(100, -100, 7));
    assert_eq!(ray.origin(), Vec3::new(10, 20, 30));
    assert_eq!(ray.direction(), Vec3::new(100, -100, 7));
    assert_eq!(ray.at(0), Vec3::new(10, 20, 30));
    assert_eq!(ray.at(1000), Vec3::new(110, -80, 37));
    // -500 * 7 / 1000 rounds down to -4, not toward zero
    assert_eq!(ray.at(-500), Vec3::new(-40, 70, 26));
}

#[test]
fn hit_record_keeps_opposed_normal() {
    let ray = Ray::new(Vec3::new(0, 0, 0), Vec3::new(0, 0, -1000));
    let h = HitResult::new(&ray, Vec3::new(0, 0, -500), Vec3::new(0, 0, 1000), MaterialId::new(5), 500);
    assert!(h.front_face);
    assert_eq!(h.normal, Vec3::new(0, 0, 1000));
    assert_eq!(h.position, Vec3::new(0, 0, -500));
    assert_eq!(h.t, 500);
    assert_eq!(h.material.index, 5);
}

#[test]
fn hit_record_flips_aligned_normal() {
    let ray = Ray::new(Vec3::new(0, 0, 0), Vec3::new(0, 0, -1000));
    let h = HitResult::new(&ray, Vec3::new(0, 0, -1500), Vec3::new(0, 0, -1000), MaterialId::new(5), 1500);
    assert!(!h.front_face);
    assert_eq!(h.normal, Vec3::new(0, 0, 1000));
}

#[test]
fn hit_record_grazing_counts_as_front() {
    // a perpendicular outward normal (dot exactly zero) is kept
    let ray = Ray::new(Vec3::new(0, 0, 0), Vec3::new(0, 0, -1000));
    let h = HitResult::new(&ray, Vec3::new(1000, 0, -1000), Vec3::new(1000, 0, 0), MaterialId::new(5), 1000);
    assert!(h.front_face);
    assert_eq!(h.normal, Vec3::new(1000, 0, 0));
}
