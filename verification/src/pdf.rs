//! Probability density strategies for importance sampling: cosine-weighted
//! about a normal, toward a known light, and their equal-weight mixture.

use vstd::prelude::*;
use crate::fx::fx_div;
use crate::fx::fx_div_spec;
use crate::fx::FX_PI;
use crate::math::vec::Vec3;
use crate::objects::prim_pdf_value_spec;
use crate::objects::Primitive;
use crate::onb::Onb;
use crate::sampler::Sampler;

verus! {

/// Cosine-weighted density about the third axis of a local frame.
pub struct CosinePdf {
    pub uvw: Onb,
}

impl CosinePdf {
    pub fn new(w: Vec3) -> (r: Self)
        ensures
            r.uvw == Onb::from_w_spec(w),
    {
        CosinePdf { uvw: Onb::from_w(w) }
    }
}

/// cos(theta)/pi for the angle against `w`, zero below the horizon.
pub open spec fn cosine_value_spec(w: Vec3, direction: Vec3) -> int {
    let cosine = Vec3::dot_spec(Vec3::normalize_spec(direction), w);
    if cosine < 0 {
        0
    } else {
        fx_div_spec(cosine, FX_PI as int)
    }
}

/// Density of directions toward a light primitive, seen from a point.
pub struct HittablePdf<'a> {
    pub o: Vec3,
    pub obj: &'a Primitive,
}

impl<'a> HittablePdf<'a> {
    pub fn new(obj: &'a Primitive, o: Vec3) -> (r: Self)
        ensures
            r.o == o,
            r.obj == obj,
    {
        HittablePdf { o, obj }
    }
}

/// The equal-weight mixture of two strategies.
pub struct MixturePdf<'a> {
    pub p0: Box<Pdf<'a>>,
    pub p1: Box<Pdf<'a>>,
}

impl<'a> MixturePdf<'a> {
    pub fn new(p0: Pdf<'a>, p1: Pdf<'a>) -> (r: Self)
        ensures
            *r.p0 == p0,
            *r.p1 == p1,
    {
        MixturePdf { p0: Box::new(p0), p1: Box::new(p1) }
    }
}

/// What a strategy's direction draw may be, over every random outcome:
/// the cosine strategy returns the local-frame image of a hemisphere
/// sample, the light strategy a drawn surface direction of its primitive,
/// and the mixture an outcome of one of its two constituents.
pub open spec fn gen_outcome(p: Pdf, res: Vec3) -> bool
    decreases p,
{
    match p {
        Pdf::Cosine(c) => exists|d: Vec3| d.z >= 0 && res == #[trigger] c.uvw.local_spec(d),
        Pdf::Hittable(h) => crate::objects::prim_sample_outcome(*h.obj, h.o, res),
        Pdf::Mixture(m) => gen_outcome(*m.p0, res) || gen_outcome(*m.p1, res),
    }
}

/// A sampling strategy: it can evaluate the density of a direction and draw
/// a direction of its own.
pub enum Pdf<'a> {
    Cosine(CosinePdf),
    Hittable(HittablePdf<'a>),
    Mixture(MixturePdf<'a>),
}

impl<'a> Pdf<'a> {
    pub open spec fn wf(self) -> bool
        decreases self,
    {
        match self {
            Pdf::Cosine(_) => true,
            Pdf::Hittable(h) => h.obj.wf(),
            Pdf::Mixture(m) => m.p0.wf() && m.p1.wf(),
        }
    }

    /// The density each strategy assigns to a direction.  A mixture's
    /// density is the arithmetic mean of its two constituents' densities,
    /// for every direction.
    pub open spec fn value_spec(self, direction: Vec3) -> int
        decreases self,
    {
        match self {
            Pdf::Cosine(c) => cosine_value_spec(c.uvw.w, direction),
            Pdf::Hittable(h) => prim_pdf_value_spec(*h.obj, h.o, direction),
            Pdf::Mixture(m) => (m.p0.value_spec(direction) + m.p1.value_spec(direction)) / 2,
        }
    }

    pub fn value(&self, direction: Vec3) -> (res: i64)
        requires
            self.wf(),
        ensures
            res as int == self.value_spec(direction),
        decreases *self,
    {
        match self {
            Pdf::Cosine(c) => {
                let cosine = Vec3::dot(Vec3::normalize(direction), c.uvw.w());
                if cosine < 0 {
                    0
                } else {
                    fx_div(cosine, FX_PI)
                }
            },
            Pdf::Hittable(h) => h.obj.pdf_value(h.o, direction),
            Pdf::Mixture(m) => {
                let v0 = m.p0.value(direction);
                let v1 = m.p1.value(direction);
                let sum: i128 = v0 as i128 + v1 as i128;
                let half = crate::fx::fdiv128(sum, 2);
                half as i64
            },
        }
    }

    /// Draw a direction from the strategy; a mixture flips a fair coin.
    pub fn generate(&self, s: &mut Sampler) -> (res: Vec3)
        requires
            self.wf(),
        ensures
            gen_outcome(*self, res),
        decreases *self,
    {
        match self {
            Pdf::Cosine(c) => {
                let d = Vec3::random_cosine_direction(s);
                let res = c.uvw.local(d);
                proof {
                    assert(res == c.uvw.local_spec(d));
                }
                res
            },
            Pdf::Hittable(h) => h.obj.random(h.o, s),
            Pdf::Mixture(m) => {
                if s.next_unit() >= 32768 {
                    m.p0.generate(s)
                } else {
                    m.p1.generate(s)
                }
            },
        }
    }
}

} // verus!
