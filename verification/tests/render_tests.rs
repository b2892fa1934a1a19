use pathtracer::bvh::BvhNode;
use pathtracer::fx::FX_ONE;
use pathtracer::materials::DiffuseLight;
use pathtracer::materials::Lambertian;
use pathtracer::materials::Material;
use pathtracer::math::vec::Vec3;
use pathtracer::objects::FlipFace;
use pathtracer::objects::Primitive;
use pathtracer::objects::Sphere;
use pathtracer::objects::XZRect;
use pathtracer::pdf::CosinePdf;
use pathtracer::pdf::MixturePdf;
use pathtracer::pdf::Pdf;
use pathtracer::ray::Ray;
use pathtracer::render::ray_color;
use pathtracer::sampler::Sampler;
use pathtracer::textures::SolidColor;
use pathtracer::textures::Texture;

fn lambertian(level: i64) -> Material {
    Material::Lambertian(Lambertian::new(Texture::Solid(SolidColor::new(Vec3::newv(level)))))
}

fn overhead_light() -> Primitive {
    let emit = Material::DiffuseLight(DiffuseLight::new(Texture::Solid(SolidColor::new(
        Vec3::newv(7 * FX_ONE),
    ))));
    // set a little to the side, so a straight-down view ray does not pass
    // through the light itself
    Primitive::FlipFace(FlipFace::new(Primitive::XZRect(XZRect::new(
        3 * FX_ONE / 10,
        9 * FX_ONE / 10,
        -3 * FX_ONE / 10,
        3 * FX_ONE / 10,
        2 * FX_ONE,
        emit,
    ))))
}

#[test]
fn mixture_density_is_the_mean_of_its_parts() {
    let c0 = Pdf::Cosine(CosinePdf::new(Vec3::new(0, 0, FX_ONE)));
    let c1 = Pdf::Cosine(CosinePdf::new(Vec3::new(0, 0, FX_ONE)));
    let c2 = Pdf::Cosine(CosinePdf::new(Vec3::new(0, 0, FX_ONE)));
    let v_single = c0.value(Vec3::new(0, 0, FX_ONE));
    let mix = Pdf::Mixture(MixturePdf::new(c1, c2));
    assert_eq!(mix.value(Vec3::new(0, 0, FX_ONE)), v_single);

    // mixing with a strategy of zero density halves the value, and the
    // mean holds in every direction probed
    let light = overhead_light();
    for k in 0..20 {
        let d = Vec3::new((k - 10) * (FX_ONE / 8), FX_ONE / 2, 3 * FX_ONE / 4);
        let a = Pdf::Cosine(CosinePdf::new(Vec3::new(0, 0, FX_ONE)));
        let b = Pdf::Hittable(pathtracer::pdf::HittablePdf::new(&light, Vec3::zero()));
        let va = a.value(d);
        let vb = b.value(d);
        let m = Pdf::Mixture(MixturePdf::new(
            Pdf::Cosine(CosinePdf::new(Vec3::new(0, 0, FX_ONE))),
            Pdf::Hittable(pathtracer::pdf::HittablePdf::new(&light, Vec3::zero())),
        ));
        assert_eq!(m.value(d), (va + vb) / 2);
    }
}

#[test]
fn cosine_density_integrates_to_one() {
    // Monte-Carlo integral of cos(theta)/pi over the hemisphere, sampled
    // uniformly on the sphere and folded to the upper half: the density
    // integrates to one
    let c = Pdf::Cosine(CosinePdf::new(Vec3::new(0, 0, FX_ONE)));
    let mut smp = Sampler::from_seed(2024);
    let n = 20000;
    let mut sum = 0.0f64;
    for _ in 0..n {
        let mut d = Vec3::random_unit_vector(&mut smp);
        if d.z < 0 {
            d = d.neg();
        }
        sum += c.value(d) as f64 / FX_ONE as f64;
    }
    // average of the density over the hemisphere times its area 2 pi
    let integral = sum / n as f64 * 2.0 * std::f64::consts::PI;
    assert!((integral - 1.0).abs() < 0.1, "integral came to {integral}");
}

#[test]
fn black_scene_yields_black_radiance() {
    let mut smp = Sampler::from_seed(11);
    let world = BvhNode::new(
        vec![Primitive::Sphere(Sphere::new(Vec3::zero(), FX_ONE, lambertian(FX_ONE / 2)))],
        0,
        FX_ONE,
        &mut smp,
    ).expect("buildable");
    let objects = Primitive::Bvh(Box::new(world));
    let lights = Primitive::Sphere(Sphere::new(Vec3::new(0, 5 * FX_ONE, 0), FX_ONE, lambertian(FX_ONE / 2)));
    let r = Ray::new(Vec3::new(0, 0, 3 * FX_ONE), Vec3::new(0, 0, -FX_ONE));
    for depth in [0, 1, 5, 50] {
        let c = ray_color(&r, Vec3::zero(), &objects, &lights, depth, &mut smp);
        assert_eq!(c, Vec3::zero());
    }
}

#[test]
fn lit_sphere_receives_bounded_positive_light() {
    // a unit diffuse sphere of albedo one half under a small overhead
    // light of radiance seven: the view ray hits the sphere's top dead
    // centre, and the averaged estimate is positive but below the direct
    // radiance
    let mut smp = Sampler::from_seed(7);
    let world = BvhNode::new(
        vec![
            Primitive::Sphere(Sphere::new(Vec3::zero(), FX_ONE, lambertian(FX_ONE / 2))),
            overhead_light(),
        ],
        0,
        FX_ONE,
        &mut smp,
    ).expect("buildable");
    let objects = Primitive::Bvh(Box::new(world));
    let lights = overhead_light();
    let r = Ray::new(Vec3::new(0, 3 * FX_ONE, 0), Vec3::new(0, -FX_ONE, 0));

    let samples = 1500;
    let mut sum = [0i128; 3];
    for i in 0..samples {
        let mut s = Sampler::from_seed(1000 + i);
        let c = ray_color(&r, Vec3::zero(), &objects, &lights, 2, &mut s);
        assert!(c.x >= 0 && c.y >= 0 && c.z >= 0);
        sum[0] += c.x as i128;
        sum[1] += c.y as i128;
        sum[2] += c.z as i128;
    }
    for channel in sum {
        let avg = channel / samples as i128;
        assert!(avg > 0, "the light is partially visible, the average cannot vanish");
        assert!(avg < 7 * FX_ONE as i128, "radiance cannot exceed the direct light");
    }
}
