//! Materials: the scattering contract and its variants.
//!
//! A material decides whether an incoming ray is absorbed, emitted from, or
//! scattered, and when it scatters it supplies the scattered ray, a colour
//! weight and its own density for the chosen direction.

use vstd::prelude::*;
use crate::fx::fx_add;
use crate::fx::fx_add_spec;
use crate::fx::fx_div;
use crate::fx::fx_div_spec;
use crate::fx::fx_mul;
use crate::fx::fx_mul_spec;
use crate::fx::fx_sqrt;
use crate::fx::fx_sqrt_spec;
use crate::fx::fx_sub;
use crate::fx::fx_sub_spec;
use crate::fx::FX_ONE;
use crate::fx::FX_PI;
use crate::hittable::HitRecord;
use crate::math::vec::Vec2;
use crate::math::vec::Vec3;
use crate::onb::Onb;
use crate::ray::Ray;
use crate::sampler::Sampler;
use crate::textures::Texture;

verus! {

pub struct Lambertian {
    pub albedo: Texture,
}

impl Lambertian {
    pub fn new(albedo: Texture) -> (r: Self)
        ensures
            r.albedo == albedo,
    {
        Lambertian { albedo }
    }
}

pub struct Metal {
    pub albedo: Texture,
    pub fuzz: i64,
}

impl Metal {
    pub fn new(albedo: Texture, fuzz: i64) -> (r: Self)
        ensures
            r.albedo == albedo,
            r.fuzz == fuzz,
    {
        Metal { albedo, fuzz }
    }
}

pub struct Dielectric {
    pub ir: i64,
}

impl Dielectric {
    pub fn new(ir: i64) -> (r: Self)
        ensures
            r.ir == ir,
    {
        Dielectric { ir }
    }

    /// Schlick's reflectance: `r0 + (1 - r0) * (1 - cos)^5` with
    /// `r0 = ((1 - n) / (1 + n))^2`.
    pub open spec fn reflectance_spec(cosine: int, ref_idx: int) -> int {
        let r0a = fx_div_spec(fx_sub_spec(FX_ONE as int, ref_idx), fx_add_spec(FX_ONE as int, ref_idx));
        let r0 = fx_mul_spec(r0a, r0a);
        let m = fx_sub_spec(FX_ONE as int, cosine);
        let m2 = fx_mul_spec(m, m);
        let m4 = fx_mul_spec(m2, m2);
        let m5 = fx_mul_spec(m4, m);
        fx_add_spec(r0, fx_mul_spec(fx_sub_spec(FX_ONE as int, r0), m5))
    }

    pub fn reflectance(cosine: i64, ref_idx: i64) -> (r: i64)
        requires
            fx_add_spec(FX_ONE as int, ref_idx as int) != 0,
        ensures
            r as int == Self::reflectance_spec(cosine as int, ref_idx as int),
    {
        let denom = fx_add(FX_ONE, ref_idx);
        let r0a = fx_div(fx_sub(FX_ONE, ref_idx), denom);
        let r0 = fx_mul(r0a, r0a);
        let m = fx_sub(FX_ONE, cosine);
        let m2 = fx_mul(m, m);
        let m4 = fx_mul(m2, m2);
        let m5 = fx_mul(m4, m);
        fx_add(r0, fx_mul(fx_sub(FX_ONE, r0), m5))
    }
}

pub struct DiffuseLight {
    pub emit: Texture,
}

impl DiffuseLight {
    pub fn new(emit: Texture) -> (r: Self)
        ensures
            r.emit == emit,
    {
        DiffuseLight { emit }
    }
}

pub struct Isotropic {
    pub albedo: Texture,
}

impl Isotropic {
    pub fn new(albedo: Texture) -> (r: Self)
        ensures
            r.albedo == albedo,
    {
        Isotropic { albedo }
    }
}


/// A mesh material in the Wavefront style: a stochastic blend of a mirror
/// specular lobe and a diffuse lobe, with per-channel colours that an
/// optional texture map can add to.  The probability of the specular lobe
/// is the view cosine raised to the specular exponent; the fixed-point
/// rendition applies the exponent's integer part (capped so the power
/// loop is bounded).  Map slots the scattering logic never reads are not
/// modelled.
pub struct Mtl {
    pub specular_coefficient: i64,
    pub color_ambient: Vec3,
    pub color_diffuse: Vec3,
    pub color_specular: Vec3,
    pub color_emissive: Option<Vec3>,
    pub diffuse_map: Option<Texture>,
    pub specular_map: Option<Texture>,
}

/// The integer specular exponent actually applied: the coefficient's
/// integer part, at least zero and at most 64.
pub open spec fn mtl_exponent_spec(c: int) -> nat {
    if c <= 0 {
        0
    } else if c / (FX_ONE as int) > 64 {
        64
    } else {
        (c / (FX_ONE as int)) as nat
    }
}

/// The diffuse lobe's colour: the base colour plus the map's texel, when
/// a map is present.
pub open spec fn mtl_diffuse_color_spec(m: Mtl, uv: Vec2, p: Vec3) -> Vec3 {
    match m.diffuse_map {
        Some(t) => Vec3::add_spec(m.color_diffuse, t.value_spec(uv, p)),
        None => m.color_diffuse,
    }
}

/// The specular lobe's colour, likewise.
pub open spec fn mtl_specular_color_spec(m: Mtl, uv: Vec2, p: Vec3) -> Vec3 {
    match m.specular_map {
        Some(t) => Vec3::add_spec(m.color_specular, t.value_spec(uv, p)),
        None => m.color_specular,
    }
}

impl Mtl {
    pub fn new(
        specular_coefficient: i64,
        color_ambient: Vec3,
        color_diffuse: Vec3,
        color_specular: Vec3,
        color_emissive: Option<Vec3>,
        diffuse_map: Option<Texture>,
        specular_map: Option<Texture>,
    ) -> (r: Self)
        ensures
            r.specular_coefficient == specular_coefficient,
            r.color_ambient == color_ambient,
            r.color_diffuse == color_diffuse,
            r.color_specular == color_specular,
            r.color_emissive == color_emissive,
            r.diffuse_map == diffuse_map,
            r.specular_map == specular_map,
    {
        Mtl {
            specular_coefficient,
            color_ambient,
            color_diffuse,
            color_specular,
            color_emissive,
            diffuse_map,
            specular_map,
        }
    }
}

pub enum Material {
    Lambertian(Lambertian),
    Metal(Metal),
    Dielectric(Dielectric),
    DiffuseLight(DiffuseLight),
    Isotropic(Isotropic),
    Mtl(Mtl),
}

/// Cosine-over-pi density of a direction about a normal; zero below the
/// horizon.
pub open spec fn cosine_pdf_spec(normal: Vec3, dir: Vec3) -> int {
    let cosine = Vec3::dot_spec(normal, Vec3::normalize_spec(dir));
    if cosine < 0 {
        0
    } else {
        fx_div_spec(cosine, FX_PI as int)
    }
}


/// The refraction ratio the dielectric uses: `1/ir` entering the surface,
/// `ir` leaving it.
pub open spec fn dielectric_ratio_spec(ir: int, front_face: bool) -> int {
    if front_face {
        fx_div_spec(FX_ONE as int, ir)
    } else {
        ir
    }
}

/// The cosine against the normal, capped at one, as the dielectric
/// computes it from the unit incoming direction.
pub open spec fn dielectric_cos_spec(unit: Vec3, normal: Vec3) -> int {
    let c = Vec3::dot_spec(normal, Vec3::neg_spec(unit));
    if c > FX_ONE {
        FX_ONE as int
    } else {
        c
    }
}

/// `sin(theta) = sqrt(1 - cos^2)`, clamped below at zero.
pub open spec fn dielectric_sin_spec(unit: Vec3, normal: Vec3) -> int {
    let c = dielectric_cos_spec(unit, normal);
    let k = fx_sub_spec(FX_ONE as int, fx_mul_spec(c, c));
    fx_sqrt_spec(
        if k < 0 {
            0
        } else {
            k
        },
    )
}

/// The metal direction for a given perturbation draw: the mirror
/// reflection of the unit incoming direction, plus the draw scaled by the
/// fuzz factor.
pub open spec fn metal_dir_spec(r: Ray, normal: Vec3, fuzz: int, eta: Vec3) -> Vec3 {
    Vec3::add_spec(
        Vec3::reflect_spec(Vec3::normalize_spec(r.dir), normal),
        Vec3::scale_spec(eta, fuzz),
    )
}

/// What a metal scatter reports for the perturbation draw `eta`: the
/// perturbed reflection when it stays above the surface, absorption when
/// it dips below.
pub open spec fn metal_outcome(
    m: Metal, r: Ray, normal: Vec3, eta: Vec3, res: Option<(Vec3, Ray, i64)>,
) -> bool {
    let d = metal_dir_spec(r, normal, m.fuzz as int, eta);
    match res {
        Some((att, sray, pdf)) => sray.dir == d && Vec3::dot_spec(d, normal) > 0,
        None => Vec3::dot_spec(d, normal) <= 0,
    }
}

impl Material {
    /// Textures consistent; a dielectric has a positive refraction index.
    pub open spec fn wf(self) -> bool {
        match self {
            Material::Lambertian(m) => m.albedo.wf(),
            Material::Metal(m) => m.albedo.wf(),
            Material::Dielectric(m) => m.ir > 0 && m.ir < FX_SAT_HALF,
            Material::DiffuseLight(m) => m.emit.wf(),
            Material::Isotropic(m) => m.albedo.wf(),
            Material::Mtl(m) => (match m.diffuse_map {
                Some(t) => t.wf(),
                None => true,
            }) && (match m.specular_map {
                Some(t) => t.wf(),
                None => true,
            }),
        }
    }

    pub open spec fn is_lambertian(self) -> bool {
        self is Lambertian
    }

    /// Only a diffuse light emits from its front face; a mesh material
    /// emits its emissive colour, if it has one, from both sides.
    pub open spec fn emitted_spec(self, rec_front_face: bool, uv: Vec2, p: Vec3) -> Vec3 {
        match self {
            Material::DiffuseLight(m) => if rec_front_face {
                m.emit.value_spec(uv, p)
            } else {
                Vec3 { x: 0i64, y: 0i64, z: 0i64 }
            },
            Material::Mtl(m) => match m.color_emissive {
                Some(c) => c,
                None => Vec3 { x: 0i64, y: 0i64, z: 0i64 },
            },
            _ => Vec3 { x: 0i64, y: 0i64, z: 0i64 },
        }
    }

    /// Radiance emitted toward the incoming ray; zero except for lights,
    /// which emit from their front face only.
    pub fn emitted(&self, _r: &Ray, rec: &HitRecord, uv: Vec2, p: Vec3) -> (res: Vec3)
        requires
            self.wf(),
        ensures
            res == self.emitted_spec(rec.front_face, uv, p),
    {
        match self {
            Material::DiffuseLight(m) => {
                if rec.front_face {
                    m.emit.value(uv, p)
                } else {
                    Vec3::zero()
                }
            },
            Material::Mtl(m) => {
                match &m.color_emissive {
                    Some(c) => *c,
                    None => Vec3::zero(),
                }
            },
            _ => Vec3::zero(),
        }
    }

    /// The material's own density for a given scattered direction: the
    /// cosine model for a diffuse surface, zero for the others.
    pub open spec fn scattering_pdf_spec(self, normal: Vec3, scattered_dir: Vec3) -> int {
        match self {
            Material::Lambertian(_) => cosine_pdf_spec(normal, scattered_dir),
            _ => 0,
        }
    }

    pub fn scattering_pdf(&self, _r: &Ray, rec: &HitRecord, scattered: &Ray) -> (res: i64)
        ensures
            res as int == self.scattering_pdf_spec(rec.normal, scattered.dir),
            res >= 0,
    {
        match self {
            Material::Lambertian(_) => {
                let cosine = Vec3::dot(rec.normal, Vec3::normalize(scattered.dir));
                if cosine < 0 {
                    0
                } else {
                    proof {
                        crate::fx::lemma_tdiv_monotone(0, cosine as int * 65536, FX_PI as int);
                    }
                    fx_div(cosine, FX_PI)
                }
            },
            _ => 0,
        }
    }

    /// Decide a scatter event.  `None` means the ray is absorbed (or the
    /// surface only emits).  On `Some((attenuation, scattered, pdf))` the
    /// scattered ray starts at the hit point and keeps the incoming ray's
    /// time; what else is promised depends on the variant and is stated
    /// below over every outcome of the random draws.
    pub fn scatter(&self, r: &Ray, rec: &HitRecord, s: &mut Sampler) -> (res: Option<(Vec3, Ray, i64)>)
        requires
            self.wf(),
        ensures
            self is DiffuseLight ==> res is None,
            self is Lambertian || self is Dielectric || self is Isotropic ==> res is Some,
            self matches Material::Metal(m) ==> exists|eta: Vec3|
                Vec3::dot_spec(eta, eta) < FX_ONE && #[trigger] metal_outcome(
                    *m, *r, rec.normal, eta, res),
            self is Mtl && res is None ==> Vec3::dot_spec(
                Vec3::reflect_spec(Vec3::normalize_spec(r.dir), rec.normal),
                rec.normal,
            ) <= 0,
            res matches Some((att, sray, pdf)) ==> {
                &&& sray.orig == rec.p
                &&& sray.tm == r.tm
                &&& match *self {
                    Material::Lambertian(m) => {
                        &&& att == m.albedo.value_spec(rec.uv, rec.p)
                        &&& pdf as int == fx_div_spec(
                            Vec3::dot_spec(Onb::from_w_spec(rec.normal).w, sray.dir),
                            FX_PI as int,
                        )
                    },
                    Material::Metal(m) => {
                        &&& att == m.albedo.value_spec(rec.uv, rec.p)
                        &&& Vec3::dot_spec(sray.dir, rec.normal) > 0
                        &&& pdf == FX_ONE
                    },
                    Material::Dielectric(m) => {
                        &&& att == (Vec3 { x: FX_ONE, y: FX_ONE, z: FX_ONE })
                        &&& pdf == FX_ONE
                        &&& {
                            let unit = Vec3::normalize_spec(r.dir);
                            let ratio = if rec.front_face {
                                fx_div_spec(FX_ONE as int, m.ir as int)
                            } else {
                                m.ir as int
                            };
                            &&& {
                                ||| sray.dir == Vec3::reflect_spec(unit, rec.normal)
                                ||| sray.dir == Vec3::refract_spec(unit, rec.normal, ratio)
                            }
                            &&& fx_mul_spec(ratio, dielectric_sin_spec(unit, rec.normal))
                                > FX_ONE ==> sray.dir == Vec3::reflect_spec(unit, rec.normal)
                        }
                    },
                    Material::DiffuseLight(_) => false,
                    Material::Isotropic(m) => {
                        &&& att == m.albedo.value_spec(rec.uv, rec.p)
                        &&& Vec3::dot_spec(sray.dir, sray.dir) < FX_ONE
                    },
                    Material::Mtl(m) => {
                        &&& pdf == FX_ONE
                        &&& {
                            ||| att == mtl_diffuse_color_spec(m, rec.uv, rec.p)
                            ||| (att == mtl_specular_color_spec(m, rec.uv, rec.p)
                                && sray.dir == Vec3::reflect_spec(
                                    Vec3::normalize_spec(r.dir), rec.normal)
                                && Vec3::dot_spec(sray.dir, rec.normal) > 0)
                        }
                    },
                }
            },
    {
        match self {
            Material::Lambertian(m) => {
                let uvw = Onb::from_w(rec.normal);
                let direction = Vec3::normalize(uvw.local(Vec3::random_cosine_direction(s)));
                let pdf = fx_div(Vec3::dot(uvw.w(), direction), FX_PI);
                Some((m.albedo.value(rec.uv, rec.p), Ray::with_time(rec.p, direction, r.time()), pdf))
            },
            Material::Metal(m) => {
                let reflected = Vec3::reflect(Vec3::normalize(r.dir()), rec.normal);
                let eta = Vec3::random_in_unit_sphere(s);
                let scattered = Ray::with_time(
                    rec.p,
                    reflected.add(eta.scale(m.fuzz)),
                    r.time(),
                );
                let outcome = if Vec3::dot(scattered.dir(), rec.normal) > 0 {
                    Some((m.albedo.value(rec.uv, rec.p), scattered, FX_ONE))
                } else {
                    None
                };
                proof {
                    assert(metal_outcome(*m, *r, rec.normal, eta, outcome));
                }
                outcome
            },
            Material::Dielectric(m) => {
                let refraction_ratio = if rec.front_face {
                    fx_div(FX_ONE, m.ir)
                } else {
                    m.ir
                };
                proof {
                    crate::fx::lemma_tdiv_monotone(0, (65536 * 65536) as int, m.ir as int);
                    assert(refraction_ratio >= 0);
                    assert(fx_add_spec(FX_ONE as int, refraction_ratio as int) != 0);
                }
                let unit_direction = Vec3::normalize(r.dir());
                let mut cos_theta = Vec3::dot(rec.normal, unit_direction.neg());
                if cos_theta > FX_ONE {
                    cos_theta = FX_ONE;
                }
                let mut k = fx_sub(FX_ONE, fx_mul(cos_theta, cos_theta));
                if k < 0 {
                    k = 0;
                }
                let sin_theta = fx_sqrt(k);
                let direction: Vec3;
                if fx_mul(refraction_ratio, sin_theta) > FX_ONE {
                    direction = Vec3::reflect(unit_direction, rec.normal);
                } else {
                    let draw = s.next_unit();
                    if Dielectric::reflectance(cos_theta, refraction_ratio) > draw {
                        direction = Vec3::reflect(unit_direction, rec.normal);
                    } else {
                        direction = Vec3::refract(unit_direction, rec.normal, refraction_ratio);
                    }
                }
                Some((
                    Vec3::new(FX_ONE, FX_ONE, FX_ONE),
                    Ray::with_time(rec.p, direction, r.time()),
                    FX_ONE,
                ))
            },
            Material::DiffuseLight(_) => None,
            Material::Isotropic(m) => {
                let scattered = Ray::with_time(rec.p, Vec3::random_in_unit_sphere(s), r.time());
                let attenuation = m.albedo.value(rec.uv, rec.p);
                Some((attenuation, scattered, FX_ONE))
            },
            Material::Mtl(m) => {
                let nd = Vec3::dot(rec.normal, r.dir().neg());
                let base = if nd < 0 {
                    0
                } else {
                    nd
                };
                let e: u32 = if m.specular_coefficient <= 0 {
                    0
                } else {
                    let q = (m.specular_coefficient as u64) / 65536;
                    if q > 64 {
                        64
                    } else {
                        q as u32
                    }
                };
                let specular_chance = crate::fx::fx_powi(base, e);
                let draw = s.next_unit();
                if draw < specular_chance {
                    let reflected = Vec3::reflect(Vec3::normalize(r.dir()), rec.normal);
                    let scattered = Ray::with_time(rec.p, reflected, r.time());
                    if Vec3::dot(scattered.dir(), rec.normal) > 0 {
                        let color_specular = match &m.specular_map {
                            Some(tex) => m.color_specular.add(tex.value(rec.uv, rec.p)),
                            None => m.color_specular,
                        };
                        Some((color_specular, scattered, FX_ONE))
                    } else {
                        None
                    }
                } else {
                    let mut scatter_direction = rec.normal.add(Vec3::random_unit_vector(s));
                    if scatter_direction.near_zero() {
                        scatter_direction = rec.normal;
                    }
                    let color_diffuse = match &m.diffuse_map {
                        Some(tex) => m.color_diffuse.add(tex.value(rec.uv, rec.p)),
                        None => m.color_diffuse,
                    };
                    Some((color_diffuse, Ray::with_time(rec.p, scatter_direction, r.time()), FX_ONE))
                }
            },
        }
    }
}

/// Upper bound demanded of a refraction index so that `1 + ir` cannot
/// saturate.
pub const FX_SAT_HALF: i64 = 0x2000_0000_0000_0000;

} // verus!
