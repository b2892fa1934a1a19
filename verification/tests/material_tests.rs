use pathtracer::fx::fx_powi;
use pathtracer::fx::FX_ONE;
use pathtracer::fx::FX_PI;
use pathtracer::hittable::HitRecord;
use pathtracer::materials::Dielectric;
use pathtracer::materials::DiffuseLight;
use pathtracer::materials::Lambertian;
use pathtracer::materials::Material;
use pathtracer::materials::Metal;
use pathtracer::materials::Mtl;
use pathtracer::math::vec::Vec2;
use pathtracer::math::vec::Vec3;
use pathtracer::ray::Ray;
use pathtracer::sampler::Sampler;
use pathtracer::textures::CheckerTexture;
use pathtracer::textures::ImageTexture;
use pathtracer::textures::SolidColor;
use pathtracer::textures::Texture;

fn white_texture() -> Texture {
    Texture::Solid(SolidColor::new(Vec3::newv(FX_ONE)))
}

#[test]
fn diffuse_light_never_scatters_and_emits_frontside() {
    let light = Material::DiffuseLight(DiffuseLight::new(Texture::Solid(SolidColor::new(
        Vec3::newv(7 * FX_ONE),
    ))));
    let r = Ray::new(Vec3::new(0, 3 * FX_ONE, 0), Vec3::new(0, -FX_ONE, 0));
    let front = HitRecord::new(&r, Vec3::zero(), FX_ONE, Vec2::zero(), Vec3::new(0, FX_ONE, 0), &light);
    let mut smp = Sampler::from_seed(1);
    assert!(light.scatter(&r, &front, &mut smp).is_none());
    assert_eq!(light.emitted(&r, &front, front.uv, front.p), Vec3::newv(7 * FX_ONE));

    let back = HitRecord::new(&r, Vec3::zero(), FX_ONE, Vec2::zero(), Vec3::new(0, -FX_ONE, 0), &light);
    assert!(!back.front_face);
    assert_eq!(light.emitted(&r, &back, back.uv, back.p), Vec3::zero());
}

#[test]
fn lambertian_scatter_keeps_time_and_origin() {
    let mat = Material::Lambertian(Lambertian::new(white_texture()));
    let r = Ray::with_time(Vec3::new(0, 2 * FX_ONE, 0), Vec3::new(0, -FX_ONE, 0), 77);
    let rec = HitRecord::new(&r, Vec3::new(0, FX_ONE, 0), FX_ONE, Vec2::zero(), Vec3::new(0, FX_ONE, 0), &mat);
    let mut smp = Sampler::from_seed(3);
    let (att, sray, _pdf) = mat.scatter(&r, &rec, &mut smp).expect("diffuse always scatters");
    assert_eq!(att, Vec3::newv(FX_ONE));
    assert_eq!(sray.orig, rec.p);
    assert_eq!(sray.tm, 77);
    // the material's own density of its scattered ray is nonnegative
    assert!(mat.scattering_pdf(&r, &rec, &sray) >= 0);
}

#[test]
fn metal_scatter_stays_above_surface_or_absorbs() {
    let mat = Material::Metal(Metal::new(white_texture(), 0));
    let r = Ray::new(Vec3::new(0, 2 * FX_ONE, 0), Vec3::new(0, -FX_ONE, 0));
    let rec = HitRecord::new(&r, Vec3::zero(), 2 * FX_ONE, Vec2::zero(), Vec3::new(0, FX_ONE, 0), &mat);
    let mut smp = Sampler::from_seed(5);
    match mat.scatter(&r, &rec, &mut smp) {
        Some((att, sray, pdf)) => {
            assert_eq!(att, Vec3::newv(FX_ONE));
            assert!(Vec3::dot(sray.dir, rec.normal) > 0);
            assert_eq!(pdf, FX_ONE);
            // with no fuzz the direction is the mirror reflection
            assert_eq!(sray.dir, Vec3::new(0, FX_ONE, 0));
        },
        None => panic!("a head-on reflection is above the surface"),
    }
}

#[test]
fn dielectric_passes_full_energy() {
    let mat = Material::Dielectric(Dielectric::new(3 * FX_ONE / 2));
    let r = Ray::new(Vec3::new(0, 2 * FX_ONE, 0), Vec3::new(0, -FX_ONE, 0));
    let rec = HitRecord::new(&r, Vec3::zero(), 2 * FX_ONE, Vec2::zero(), Vec3::new(0, FX_ONE, 0), &mat);
    let mut smp = Sampler::from_seed(5);
    let (att, sray, pdf) = mat.scatter(&r, &rec, &mut smp).expect("glass always scatters");
    assert_eq!(att, Vec3::newv(FX_ONE));
    assert_eq!(pdf, FX_ONE);
    assert_eq!(sray.orig, rec.p);
}

#[test]
fn schlick_reflectance_at_normal_incidence() {
    // cos = 1, n = 1.5: r0 = ((1-1.5)/(2.5))^2 = 0.04, and the fifth-power
    // term vanishes; the fixed-point value truncates each step
    let v = Dielectric::reflectance(FX_ONE, 3 * FX_ONE / 2);
    assert_eq!(v, 2621);
}

#[test]
fn lambertian_pdf_formula() {
    let mat = Material::Lambertian(Lambertian::new(white_texture()));
    let r = Ray::new(Vec3::new(0, 2 * FX_ONE, 0), Vec3::new(0, -FX_ONE, 0));
    let rec = HitRecord::new(&r, Vec3::zero(), 2 * FX_ONE, Vec2::zero(), Vec3::new(0, FX_ONE, 0), &mat);
    // a scattered ray straight along the normal: density = 1/pi
    let up = Ray::new(Vec3::zero(), Vec3::new(0, FX_ONE, 0));
    let expect = ((FX_ONE as i128) * 65536 / (FX_PI as i128)) as i64;
    assert_eq!(mat.scattering_pdf(&r, &rec, &up), expect);
    // below the horizon: zero
    let down = Ray::new(Vec3::zero(), Vec3::new(0, -FX_ONE, 0));
    assert_eq!(mat.scattering_pdf(&r, &rec, &down), 0);
}

#[test]
fn checker_texture_alternates_between_children() {
    let tex = Texture::Checker(CheckerTexture::new(
        Texture::Solid(SolidColor::new(Vec3::newv(0))),
        Texture::Solid(SolidColor::new(Vec3::newv(FX_ONE))),
    ));
    // stripes have width pi/10 in each coordinate; probe two points a
    // half-stripe apart along x
    let a = tex.value(Vec2::zero(), Vec3::new(FX_ONE / 10, 0, 0));
    let b = tex.value(Vec2::zero(), Vec3::new(FX_ONE / 10 + 20589, 0, 0));
    assert_ne!(a, b);
}

#[test]
fn image_texture_reads_exact_texels() {
    // a 2-by-1 image: red texel then blue texel
    let data = vec![255u8, 0, 0, 0, 0, 255];
    let img = ImageTexture::new(data, 2, 1);
    let left = img.value(Vec2::new(0, FX_ONE / 2), Vec3::zero());
    let right = img.value(Vec2::new(FX_ONE, FX_ONE / 2), Vec3::zero());
    assert_eq!(left.x, 255 * FX_ONE / 255);
    assert_eq!(left.z, 0);
    assert_eq!(right.x, 0);
    assert_eq!(right.z, FX_ONE);
}

#[test]
fn mesh_material_blends_specular_and_diffuse() {
    let mat = Material::Mtl(Mtl::new(
        2 * FX_ONE,
        Vec3::newv(FX_ONE / 10),
        Vec3::new(FX_ONE / 2, FX_ONE / 4, FX_ONE / 8),
        Vec3::newv(9 * FX_ONE / 10),
        Some(Vec3::newv(FX_ONE / 3)),
        None,
        None,
    ));
    // a slanted view: the cosine is about 0.7, so the squared-cosine
    // mirror chance is about one half and both lobes appear
    let r = Ray::new(Vec3::new(-2 * FX_ONE, 2 * FX_ONE, 0), Vec3::new(46341, -46341, 0));
    let rec = HitRecord::new(&r, Vec3::zero(), 2 * FX_ONE, Vec2::zero(), Vec3::new(0, FX_ONE, 0), &mat);

    // both sides emit the emissive colour
    assert_eq!(mat.emitted(&r, &rec, rec.uv, rec.p), Vec3::newv(FX_ONE / 3));

    // every scatter pays out one of the two lobes' colours, at the hit
    // point; the mirror lobe stays above the surface
    let mut saw_specular = false;
    let mut saw_diffuse = false;
    for seed in 0..200 {
        let mut smp = Sampler::from_seed(seed);
        if let Some((att, sray, pdf)) = mat.scatter(&r, &rec, &mut smp) {
            assert_eq!(pdf, FX_ONE);
            assert_eq!(sray.orig, rec.p);
            if att == Vec3::newv(9 * FX_ONE / 10) {
                assert!(Vec3::dot(sray.dir, rec.normal) > 0);
                saw_specular = true;
            } else {
                assert_eq!(att, Vec3::new(FX_ONE / 2, FX_ONE / 4, FX_ONE / 8));
                saw_diffuse = true;
            }
        }
    }
    assert!(saw_specular, "the mirror lobe fires about half the time over 200 seeds");
    assert!(saw_diffuse, "the diffuse lobe fires about half the time over 200 seeds");
}

#[test]
fn integer_power_is_exact() {
    assert_eq!(fx_powi(FX_ONE / 2, 0), FX_ONE);
    assert_eq!(fx_powi(FX_ONE / 2, 3), FX_ONE / 8);
    assert_eq!(fx_powi(2 * FX_ONE, 5), 32 * FX_ONE);
    assert_eq!(fx_powi(0, 4), 0);
}
