//! The recursive radiance estimator: the Monte-Carlo integrator that ties
//! the tree, the materials and the sampling strategies together.

use vstd::prelude::*;
use crate::fx::fx_div;
use crate::fx::fx_div_spec;
use crate::fx::lemma_fx_div_zero;
use crate::fx::lemma_fx_mul_zero;
use crate::hittable::HitData;
use crate::materials::Material;
use crate::math::vec::Vec2;
use crate::math::vec::Vec3;
use crate::objects::Primitive;
use crate::objects::T_EPSILON;
use crate::objects::T_FAR;
use crate::pdf::CosinePdf;
use crate::pdf::HittablePdf;
use crate::pdf::MixturePdf;
use crate::pdf::Pdf;
use crate::ray::Ray;
use crate::sampler::Sampler;

verus! {

/// One output picture element.
pub struct Pixel {
    pub x: u32,
    pub y: u32,
    pub color: Vec3,
}

impl Pixel {
    pub fn new(x: u32, y: u32, color: Vec3) -> (r: Self)
        ensures
            r.x == x,
            r.y == y,
            r.color == color,
    {
        Pixel { x, y, color }
    }
}

/// The zero radiance.
pub open spec fn black() -> Vec3 {
    Vec3 { x: 0i64, y: 0i64, z: 0i64 }
}

/// A scene of diffuse surfaces yields diffuse hits: every hit record of a
/// purely Lambertian tree carries a Lambertian material.
#[verifier::rlimit(100)]
#[verifier::spinoff_prover]
proof fn lemma_lambertian_hit(p: Primitive, r: Ray, lo: int, hi: int)
    requires
        p.all_lambertian(),
    ensures
        p.det(),
        match p.hit_spec(r, lo, hi) {
            Some(h) => h.material is Lambertian,
            None => true,
        },
    decreases p,
{
    reveal(Primitive::hit_spec);
    match p {
        Primitive::Translate(s) => {
            lemma_lambertian_hit(*s.obj, crate::objects::moved_ray(r, s.offset), lo, hi);
        },
        Primitive::RotateY(s) => {
            let c = s.cos_theta as int;
            let sn = s.sin_theta as int;
            let rotated = Ray {
                orig: crate::objects::rot_y_inv_spec(c, sn, r.orig),
                dir: crate::objects::rot_y_inv_spec(c, sn, r.dir),
                tm: r.tm,
            };
            lemma_lambertian_hit(*s.obj, rotated, lo, hi);
        },
        Primitive::FlipFace(s) => {
            lemma_lambertian_hit(*s.obj, r, lo, hi);
        },
        Primitive::Bvh(n) => {
            lemma_lambertian_hit_node(*n, r, lo, hi);
        },
        _ => {},
    }
}

#[verifier::rlimit(100)]
#[verifier::spinoff_prover]
proof fn lemma_lambertian_hit_node(n: crate::bvh::BvhNode, r: Ray, lo: int, hi: int)
    requires
        match n.left {
            Some(p) => (*p).all_lambertian(),
            None => true,
        },
        match n.right {
            Some(p) => (*p).all_lambertian(),
            None => true,
        },
    ensures
        n.det(),
        match crate::bvh::bvh_hit_spec(n, r, lo, hi) {
            Some(h) => h.material is Lambertian,
            None => true,
        },
    decreases n,
{
    match n.left {
        Some(p) => {
            lemma_lambertian_hit(*p, r, lo, hi);
        },
        None => {},
    }
    match n.right {
        Some(p) => {
            lemma_lambertian_hit(*p, r, lo, hi);
        },
        None => {},
    }
}

/// The estimator's combination step:
/// `emitted + attenuation * scattering_pdf * incoming / pdf_value`,
/// componentwise.  A black incoming radiance adds nothing.
fn combine_radiance(emitted: Vec3, att: Vec3, spdf: i64, incoming: Vec3, pdf_val: i64) -> (res: Vec3)
    requires
        pdf_val != 0,
    ensures
        res == combine_spec(emitted, att, spdf as int, incoming, pdf_val as int),
        incoming == black() && emitted == black() ==> res == black(),
{
    let weighted = att.scale(spdf).mul(incoming);
    let bounce = Vec3::new(
        fx_div(weighted.x, pdf_val),
        fx_div(weighted.y, pdf_val),
        fx_div(weighted.z, pdf_val),
    );
    proof {
        if incoming == black() && emitted == black() {
            lemma_fx_mul_zero(crate::fx::fx_mul_spec(att.x as int, spdf as int));
            lemma_fx_mul_zero(crate::fx::fx_mul_spec(att.y as int, spdf as int));
            lemma_fx_mul_zero(crate::fx::fx_mul_spec(att.z as int, spdf as int));
            lemma_fx_div_zero(pdf_val as int);
            assert(weighted == black());
            assert(bounce == black());
        }
    }
    emitted.add(bounce)
}


/// The combined radiance of one bounce, componentwise:
/// `emitted + attenuation * scattering_pdf * incoming / pdf_value`.
pub open spec fn combine_spec(
    emitted: Vec3, att: Vec3, spdf: int, incoming: Vec3, pdf_val: int,
) -> Vec3 {
    let weighted = Vec3::mul_spec(Vec3::scale_spec(att, spdf), incoming);
    Vec3::add_spec(
        emitted,
        Vec3::v3(
            fx_div_spec(weighted.x as int, pdf_val),
            fx_div_spec(weighted.y as int, pdf_val),
            fx_div_spec(weighted.z as int, pdf_val),
        ),
    )
}

/// The density the estimator divides by: the equal mixture of the
/// light-directed density from the hit point and the cosine density about
/// the hit normal, evaluated at the drawn direction.
pub open spec fn mixture_density_at(lights: Primitive, p: Vec3, normal: Vec3, d: Vec3) -> int {
    (crate::objects::prim_pdf_value_spec(lights, p, d) + crate::pdf::cosine_value_spec(
        crate::onb::Onb::from_w_spec(normal).w,
        d,
    )) / 2
}

/// The colour weight a scatter event reports, per material: the surface's
/// texture for the diffuse, metallic and isotropic kinds, full
/// transmission for glass; a light never scatters.
pub open spec fn scatter_attenuation_ok(mat: Material, uv: Vec2, p: Vec3, att: Vec3) -> bool {
    match mat {
        Material::Lambertian(m) => att == m.albedo.value_spec(uv, p),
        Material::Metal(m) => att == m.albedo.value_spec(uv, p),
        Material::Dielectric(_) => att == (Vec3 {
            x: crate::fx::FX_ONE,
            y: crate::fx::FX_ONE,
            z: crate::fx::FX_ONE,
        }),
        Material::DiffuseLight(_) => false,
        Material::Isotropic(m) => att == m.albedo.value_spec(uv, p),
        Material::Mtl(m) => att == crate::materials::mtl_diffuse_color_spec(m, uv, p) || att
            == crate::materials::mtl_specular_color_spec(m, uv, p),
    }
}

/// What one shading step may return, over every random outcome: the
/// emission alone (an absorbing surface, or a degenerate mixture density),
/// or the emission plus the importance-weighted bounce -- some incoming
/// radiance attenuated and weighted by the material's own density over the
/// mixture density, both re-evaluated at a single drawn direction whose
/// mixture density is positive.
pub open spec fn shade_outcome(h: HitData, lights: Primitive, res: Vec3) -> bool {
    let emitted = h.material.emitted_spec(h.front_face, h.uv, h.p);
    ||| res == emitted
    ||| exists|d: Vec3, att: Vec3, incoming: Vec3|
        {
            &&& mixture_density_at(lights, h.p, h.normal, d) > 0
            &&& scatter_attenuation_ok(h.material, h.uv, h.p, att)
            &&& res == #[trigger] combine_spec(
                emitted,
                att,
                h.material.scattering_pdf_spec(h.normal, d),
                incoming,
                mixture_density_at(lights, h.p, h.normal, d),
            )
        }
}

/// Exhibit a drawn direction and its weights as a shading outcome.
proof fn lemma_shade_witness(
    h: HitData, lights: Primitive, d: Vec3, emitted: Vec3, att: Vec3, spdf: i64,
    incoming: Vec3, pdf_val: i64, res: Vec3,
)
    requires
        emitted == h.material.emitted_spec(h.front_face, h.uv, h.p),
        scatter_attenuation_ok(h.material, h.uv, h.p, att),
        spdf as int == h.material.scattering_pdf_spec(h.normal, d),
        pdf_val as int == mixture_density_at(lights, h.p, h.normal, d),
        pdf_val > 0,
        res == combine_spec(emitted, att, spdf as int, incoming, pdf_val as int),
    ensures
        shade_outcome(h, lights, res),
{
    assert(res == combine_spec(
        emitted,
        att,
        h.material.scattering_pdf_spec(h.normal, d),
        incoming,
        mixture_density_at(lights, h.p, h.normal, d),
    ));
}

/// The recursive light-transport estimator.
///
/// At each bounce: find the closest hit past the self-intersection floor,
/// add the surface's emission, and if the surface scatters, sample a new
/// direction from the equal mixture of the light-directed and the
/// cosine-weighted strategies, weight the recursive radiance by the
/// material's own density over the mixture's density, and attenuate.
///
/// A scene of non-emitting diffuse surfaces under a black background
/// produces no radiance from nothing: the result is exactly black, whatever
/// directions are drawn.
#[verifier::rlimit(100)]
#[verifier::spinoff_prover]
pub fn ray_color(
    r: &Ray,
    background: Vec3,
    objects: &Primitive,
    lights: &Primitive,
    depth: i32,
    s: &mut Sampler,
) -> (res: Vec3)
    requires
        objects.wf(),
        lights.wf(),
    ensures
        depth <= 0 ==> res == black(),
        objects.all_lambertian() && background == black() ==> res == black(),
        objects.det() && depth > 0 ==> match objects.hit_spec(
            *r, T_EPSILON as int, T_FAR as int) {
            None => res == background,
            Some(h) => shade_outcome(h, *lights, res),
        },
    decreases depth,
{
    if depth <= 0 {
        return Vec3::zero();
    }

    let hit_res = objects.hit(r, T_EPSILON, T_FAR, s);
    proof {
        if objects.all_lambertian() {
            lemma_lambertian_hit(*objects, *r, T_EPSILON as int, T_FAR as int);
        }
    }
    match hit_res {
        None => background,
        Some(rec) => {
            let emitted = rec.material.emitted(r, &rec, rec.uv, rec.p);
            match rec.material.scatter(r, &rec, s) {
                None => emitted,
                Some((att, _scattered0, _pdf0)) => {
                    let light_pdf = Pdf::Hittable(HittablePdf::new(lights, rec.p));
                    let cosine_pdf = Pdf::Cosine(CosinePdf::new(rec.normal));
                    let ghost light_part = light_pdf;
                    let ghost cosine_part = cosine_pdf;
                    proof {
                        assert(light_pdf.wf());
                        assert(cosine_pdf.wf());
                    }
                    let mixture = MixturePdf::new(light_pdf, cosine_pdf);
                    let mixed_pdf = Pdf::Mixture(mixture);
                    proof {
                        assert(mixed_pdf.wf());
                    }
                    let dir = mixed_pdf.generate(s);
                    let scattered = Ray::with_time(rec.p, dir, r.time());
                    let pdf_val = mixed_pdf.value(scattered.dir());
                    if pdf_val <= 0 {
                        // a degenerate mixture density carries no usable
                        // weight: contribute the emission alone
                        return emitted;
                    }
                    let spdf = rec.material.scattering_pdf(r, &rec, &scattered);
                    let rec_color = ray_color(&scattered, background, objects, lights, depth - 1, s);
                    proof {
                        if objects.all_lambertian() && background == black() {
                            assert(rec_color == black());
                            assert(emitted == black());
                        }
                    }
                    let res = combine_radiance(emitted, att, spdf, rec_color, pdf_val);
                    proof {
                        if objects.det() {
                            let ghost h = objects.hit_spec(
                                *r, T_EPSILON as int, T_FAR as int)->Some_0;
                            assert(light_part.value_spec(dir)
                                == crate::objects::prim_pdf_value_spec(*lights, rec.p, dir));
                            assert(cosine_part.value_spec(dir)
                                == crate::pdf::cosine_value_spec(
                                crate::onb::Onb::from_w_spec(rec.normal).w, dir));
                            assert(mixed_pdf.value_spec(dir) == (light_part.value_spec(dir)
                                + cosine_part.value_spec(dir)) / 2);
                            assert(pdf_val as int == mixture_density_at(
                                *lights, h.p, h.normal, dir));
                            lemma_shade_witness(
                                h, *lights, dir, emitted, att, spdf, rec_color, pdf_val, res);
                        }
                    }
                    res
                },
            }
        },
    }
}

} // verus!
