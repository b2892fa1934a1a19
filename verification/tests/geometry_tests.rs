use pathtracer::aabb::Aabb;
use pathtracer::fx::FX_ONE;
use pathtracer::materials::Lambertian;
use pathtracer::materials::Material;
use pathtracer::math::vec::Vec3;
use pathtracer::objects::Primitive;
use pathtracer::objects::Sphere;
use pathtracer::objects::Translate;
use pathtracer::objects::RotateY;
use pathtracer::objects::XZRect;
use pathtracer::ray::Ray;
use pathtracer::sampler::Sampler;
use pathtracer::textures::SolidColor;
use pathtracer::textures::Texture;

fn grey() -> Material {
    Material::Lambertian(Lambertian::new(Texture::Solid(SolidColor::new(Vec3::newv(FX_ONE / 2)))))
}

#[test]
fn aabb_hit_through_interior() {
    let a = Aabb::new(Vec3::newv(0), Vec3::newv(2 * FX_ONE));
    let r = Ray::new(Vec3::new(FX_ONE, FX_ONE, -3 * FX_ONE), Vec3::new(0, 0, FX_ONE));
    assert!(a.hit(&r, 0, 100 * FX_ONE));
    // a surrounding box keeps the hit
    let b = Aabb::new(Vec3::newv(-5 * FX_ONE), Vec3::newv(-4 * FX_ONE));
    let u = Aabb::surrounding_box(&a, &b);
    assert!(u.hit(&r, 0, 100 * FX_ONE));
    // the union contains both boxes
    assert!(u.min.x <= a.min.x && a.max.x <= u.max.x);
    assert!(u.min.x <= b.min.x && b.max.x <= u.max.x);
}

#[test]
fn aabb_miss_stays_a_miss_on_parallel_ray() {
    let a = Aabb::new(Vec3::newv(0), Vec3::newv(FX_ONE));
    // parallel to the box, origin outside the x slab
    let r = Ray::new(Vec3::new(2 * FX_ONE, 0, 0), Vec3::new(0, 0, FX_ONE));
    assert!(!a.hit(&r, 0, 100 * FX_ONE));
}

#[test]
fn sphere_hit_takes_smaller_root_with_outward_unit_normal() {
    let s = Sphere::new(Vec3::zero(), FX_ONE, grey());
    // from outside along -z: roots at t = 2 and t = 4
    let r = Ray::new(Vec3::new(0, 0, 3 * FX_ONE), Vec3::new(0, 0, -FX_ONE));
    let rec = s.hit(&r, 0, 100 * FX_ONE).expect("the ray crosses the sphere");
    assert_eq!(rec.t, 2 * FX_ONE);
    assert_eq!(rec.p, Vec3::new(0, 0, FX_ONE));
    // outward normal of unit length, pointing at the ray
    assert_eq!(rec.normal, Vec3::new(0, 0, FX_ONE));
    assert!(rec.front_face);
    assert_eq!(Vec3::dot(rec.normal, rec.normal), FX_ONE);
    // from inside: the smaller root is behind, the larger is taken
    let r2 = Ray::new(Vec3::zero(), Vec3::new(0, 0, -FX_ONE));
    let rec2 = s.hit(&r2, 0, 100 * FX_ONE).expect("the ray leaves the sphere");
    assert_eq!(rec2.t, FX_ONE);
    assert!(!rec2.front_face);
}

#[test]
fn sphere_miss_returns_none() {
    let s = Sphere::new(Vec3::zero(), FX_ONE, grey());
    let r = Ray::new(Vec3::new(3 * FX_ONE, 0, 3 * FX_ONE), Vec3::new(0, 0, -FX_ONE));
    assert!(s.hit(&r, 0, 100 * FX_ONE).is_none());
}

#[test]
fn rect_hit_and_uv() {
    let rect = XZRect::new(0, 2 * FX_ONE, 0, 2 * FX_ONE, FX_ONE, grey());
    let r = Ray::new(Vec3::new(FX_ONE, 3 * FX_ONE, FX_ONE), Vec3::new(0, -FX_ONE, 0));
    let rec = rect.hit(&r, 0, 100 * FX_ONE).expect("the ray crosses the plane");
    assert_eq!(rec.t, 2 * FX_ONE);
    assert_eq!(rec.uv.x, FX_ONE / 2);
    assert_eq!(rec.uv.y, FX_ONE / 2);
    assert!(rec.front_face);
}

#[test]
fn translate_shifts_hits() {
    let s = Primitive::Sphere(Sphere::new(Vec3::zero(), FX_ONE, grey()));
    let moved = Translate::new(s, Vec3::new(10 * FX_ONE, 0, 0));
    let mut smp = Sampler::from_seed(7);
    let r = Ray::new(Vec3::new(10 * FX_ONE, 0, 3 * FX_ONE), Vec3::new(0, 0, -FX_ONE));
    let rec = moved.hit(&r, 0, 100 * FX_ONE, &mut smp).expect("the moved sphere is on the ray");
    assert_eq!(rec.t, 2 * FX_ONE);
    assert_eq!(rec.p, Vec3::new(10 * FX_ONE, 0, FX_ONE));
}

#[test]
fn rotate_y_by_zero_angle_is_identity() {
    let s = Primitive::Sphere(Sphere::new(Vec3::new(2 * FX_ONE, 0, 0), FX_ONE, grey()));
    let rotated = RotateY::new(s, 0, FX_ONE);
    let mut smp = Sampler::from_seed(7);
    let r = Ray::new(Vec3::new(2 * FX_ONE, 0, 4 * FX_ONE), Vec3::new(0, 0, -FX_ONE));
    let rec = rotated.hit(&r, 0, 100 * FX_ONE, &mut smp).expect("hit through the rotation");
    assert_eq!(rec.t, 3 * FX_ONE);
}

#[test]
fn sampler_draws_stay_in_range_and_vary() {
    let mut smp = Sampler::from_seed(123);
    assert_eq!(smp.next_in(5, 6), 5);
    let mut seen_different = false;
    let first = smp.next_in(0, 1000);
    for _ in 0..100 {
        let v = smp.next_in(0, 1000);
        assert!(v < 1000);
        if v != first {
            seen_different = true;
        }
    }
    assert!(seen_different);
}
