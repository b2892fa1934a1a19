//! The scene geometry: leaf shapes, transform wrappers and the closed
//! `Primitive` type that the tree and the estimator traverse.
//!
//! Every deterministic primitive's intersection behaviour is pinned by an
//! exact specification (`hit_spec`); randomness enters only through the
//! constant-density medium, whose contract states what holds of every
//! outcome.

use vstd::prelude::*;
use crate::aabb::Aabb;
use crate::fx::fx_add;
use crate::fx::fx_add_spec;
use crate::fx::fx_div;
use crate::fx::fx_div_spec;
use crate::fx::fx_mul;
use crate::fx::fx_mul_spec;
use crate::fx::fx_sub;
use crate::fx::fx_sub_spec;
use crate::fx::fx_neg;
use crate::fx::fx_neg_spec;
use crate::fx::sqrt_floor;
use crate::fx::tdiv;
use crate::fx::abs_int;
use crate::fx::lemma_sqrt_floor_props;
use crate::fx::lemma_sqrt_unique;
use crate::fx::FX_ONE;
use crate::hittable::ghost_of;
use crate::hittable::HitData;
use crate::hittable::HitRecord;
use crate::materials::Isotropic;
use crate::materials::Material;
use crate::textures::Texture;
use crate::math::vec::Vec2;
use crate::math::vec::Vec3;
use crate::ray::Ray;
use crate::sampler::Sampler;

verus! {

/// A dot product is a saturated sum, hence inside the saturation range.
proof fn lemma_dot_in_sat_range(a: Vec3, b: Vec3)
    ensures
        -(crate::fx::FX_SAT as int) <= Vec3::dot_spec(a, b) <= crate::fx::FX_SAT as int,
{
    crate::fx::lemma_sat_range(
        fx_add_spec(
            fx_mul_spec(a.x as int, b.x as int),
            fx_mul_spec(a.y as int, b.y as int),
        ) + fx_mul_spec(a.z as int, b.z as int));
}

/// Smallest root of `a t^2 + 2 hb t + c = 0` that falls in `[lo, hi]`,
/// under the fixed-point rounding of the quadratic formula: the root pair is
/// `(-hb -/+ sqrt(hb^2 - a c)) / a`, tried in that order.
pub open spec fn quad_first_root_spec(a: int, hb: int, c: int, lo: int, hi: int) -> Option<int> {
    if a == 0 {
        None
    } else {
        let d = hb * hb - a * c;
        if d < 0 {
            None
        } else {
            let s = sqrt_floor(d);
            let t1 = tdiv((-hb - s) * (FX_ONE as int), a);
            let t2 = tdiv((-hb + s) * (FX_ONE as int), a);
            if lo <= t1 <= hi {
                Some(t1)
            } else if lo <= t2 <= hi {
                Some(t2)
            } else {
                None
            }
        }
    }
}

fn isqrt_wide(n: i128) -> (r: i128)
    requires
        0 <= n <= 0x4000_0000_0000_0000_0000_0000_0000_0000,
    ensures
        r as int == sqrt_floor(n as int),
        0 <= r <= 0x8000_0000_0000_0000,
{
    let s = crate::fx::isqrt_u128(n as u128);
    proof {
        lemma_sqrt_floor_props(n as int);
        lemma_sqrt_unique(n as int, s as int, sqrt_floor(n as int));
        assert(s as int * s as int <= n as int);
        crate::fx::lemma_wide_root_small(n as int, s as int);
    }
    s as i128
}

/// Shrinking the acceptance interval keeps or drops the chosen root but
/// never switches to a farther one, provided the leading coefficient is
/// nonnegative (so the first root tried is the smaller).
pub proof fn lemma_quad_first_root_shrink(a: int, hb: int, c: int, lo: int, hi1: int, hi2: int)
    requires
        a >= 0,
        lo <= hi2 <= hi1,
    ensures
        match quad_first_root_spec(a, hb, c, lo, hi1) {
            None => quad_first_root_spec(a, hb, c, lo, hi2) is None,
            Some(t) => if t <= hi2 {
                quad_first_root_spec(a, hb, c, lo, hi2) == Some(t)
            } else {
                quad_first_root_spec(a, hb, c, lo, hi2) is None
            },
        },
{
    if a != 0 && hb * hb - a * c >= 0 {
        let d = hb * hb - a * c;
        crate::fx::lemma_sqrt_floor_props(d);
        let s = sqrt_floor(d);
        assert((-hb - s) * (FX_ONE as int) <= (-hb + s) * (FX_ONE as int)) by (nonlinear_arith)
            requires
                s >= 0,
        ;
        crate::fx::lemma_tdiv_monotone(
            (-hb - s) * (FX_ONE as int),
            (-hb + s) * (FX_ONE as int),
            a,
        );
    }
}

/// Solve the quadratic and return the first acceptable root.
fn quad_first_root(a: i64, hb: i64, c: i64, lo: i64, hi: i64) -> (res: Option<i64>)
    requires
        -crate::fx::FX_SAT <= a <= crate::fx::FX_SAT,
        -crate::fx::FX_SAT <= hb <= crate::fx::FX_SAT,
        -crate::fx::FX_SAT <= c <= crate::fx::FX_SAT,
    ensures
        match res {
            Some(t) => quad_first_root_spec(a as int, hb as int, c as int, lo as int, hi as int)
                == Some(t as int),
            None => quad_first_root_spec(a as int, hb as int, c as int, lo as int, hi as int)
                is None,
        },
{
    if a == 0 {
        return None;
    }
    proof {
        crate::fx::lemma_i64_products_wide(a as int, hb as int, c as int);
    }
    let d: i128 = (hb as i128) * (hb as i128) - (a as i128) * (c as i128);
    if d < 0 {
        return None;
    }
    let s: i128 = isqrt_wide(d);
    let n1: i128 = (-(hb as i128) - s) * 65536;
    let n2: i128 = (-(hb as i128) + s) * 65536;
    let t1: i128 = crate::fx::tdiv_wide(n1, a as i128);
    let t2: i128 = crate::fx::tdiv_wide(n2, a as i128);
    if lo as i128 <= t1 && t1 <= hi as i128 {
        Some(t1 as i64)
    } else if lo as i128 <= t2 && t2 <= hi as i128 {
        Some(t2 as i64)
    } else {
        None
    }
}

pub struct Sphere {
    pub center: Vec3,
    pub radius: i64,
    pub material: Material,
}

impl Sphere {
    pub fn new(center: Vec3, radius: i64, material: Material) -> (r: Self)
        ensures
            r.center == center,
            r.radius == radius,
            r.material == material,
    {
        Sphere { center, radius, material }
    }

    /// Planar parameterisation of the unit normal: both coordinates map
    /// `[-1, 1]` onto `[0, 1]`.  It stands in for the spherical-angle
    /// parameterisation, which needs inverse trigonometry that the
    /// fixed-point scalar does not offer.
    pub open spec fn get_uv_spec(p: Vec3) -> Vec2 {
        Vec2 {
            x: fx_mul_spec(fx_add_spec(p.x as int, FX_ONE as int), 32768) as i64,
            y: fx_mul_spec(fx_add_spec(p.y as int, FX_ONE as int), 32768) as i64,
        }
    }

    pub fn get_uv(&self, p: &Vec3) -> (r: Vec2)
        ensures
            r == Self::get_uv_spec(*p),
    {
        Vec2 {
            x: fx_mul(fx_add(p.x, FX_ONE), 32768),
            y: fx_mul(fx_add(p.y, FX_ONE), 32768),
        }
    }

    /// The outward unit normal at `p`: `(p - center) / radius`.
    pub open spec fn outward_normal_spec(self, p: Vec3) -> Vec3 {
        let d = Vec3::sub_spec(p, self.center);
        Vec3::v3(
            fx_div_spec(d.x as int, self.radius as int),
            fx_div_spec(d.y as int, self.radius as int),
            fx_div_spec(d.z as int, self.radius as int),
        )
    }

    pub open spec fn hit_spec(self, r: Ray, lo: int, hi: int) -> Option<HitData> {
        let oc = Vec3::sub_spec(r.orig, self.center);
        let a = Vec3::dot_spec(r.dir, r.dir);
        let hb = Vec3::dot_spec(oc, r.dir);
        let c = fx_sub_spec(Vec3::dot_spec(oc, oc), fx_mul_spec(self.radius as int, self.radius as int));
        match quad_first_root_spec(a, hb, c, lo, hi) {
            None => None,
            Some(t) => {
                let p = r.at_spec(t);
                let outward = self.outward_normal_spec(p);
                Some(HitData {
                    p,
                    normal: crate::hittable::HitRecord::oriented_normal(r, outward),
                    t: t as i64,
                    uv: Self::get_uv_spec(outward),
                    front_face: Vec3::dot_spec(r.dir, outward) < 0,
                    material: self.material,
                })
            },
        }
    }

    pub fn hit(&self, r: &Ray, tmin: i64, tmax: i64) -> (res: Option<HitRecord>)
        requires
            self.radius != 0,
        ensures
            ghost_of(res) == self.hit_spec(*r, tmin as int, tmax as int),
            res matches Some(h) ==> h.material == &self.material,
    {
        let oc = r.orig().sub(self.center);
        let a = Vec3::dot(r.dir(), r.dir());
        let hb = Vec3::dot(oc, r.dir());
        let c = fx_sub(Vec3::dot(oc, oc), fx_mul(self.radius, self.radius));
        proof {
            crate::fx::lemma_sat_range(
                Vec3::dot_spec(r.dir, r.dir) - Vec3::dot_spec(r.dir, r.dir)
                    + (Vec3::dot_spec(r.dir, r.dir)));
            lemma_dot_in_sat_range(r.dir, r.dir);
            lemma_dot_in_sat_range(Vec3::sub_spec(r.orig, self.center), r.dir);
            crate::fx::lemma_sat_range(
                Vec3::dot_spec(Vec3::sub_spec(r.orig, self.center), Vec3::sub_spec(r.orig, self.center))
                    - fx_mul_spec(self.radius as int, self.radius as int));
        }
        match quad_first_root(a, hb, c, tmin, tmax) {
            None => None,
            Some(t) => {
                let p = r.at(t);
                let d = p.sub(self.center);
                let outward = Vec3::new(
                    fx_div(d.x, self.radius),
                    fx_div(d.y, self.radius),
                    fx_div(d.z, self.radius),
                );
                let uv = self.get_uv(&outward);
                Some(HitRecord::new(r, p, t, uv, outward, &self.material))
            },
        }
    }

    pub open spec fn bounding_box_spec(self) -> Aabb {
        Aabb {
            min: Vec3::sub_spec(self.center, Vec3 { x: self.radius, y: self.radius, z: self.radius }),
            max: Vec3::add_spec(self.center, Vec3 { x: self.radius, y: self.radius, z: self.radius }),
        }
    }

    pub fn bounding_box(&self, _time0: i64, _time1: i64) -> (res: Option<Aabb>)
        ensures
            res == Some(self.bounding_box_spec()),
    {
        let rv = Vec3::newv(self.radius);
        Some(Aabb::new(self.center.sub(rv), self.center.add(rv)))
    }
}

/// The single slab-plane candidate of an axis-aligned rectangle:
/// `t = (k - o) / d` for the fixed axis, then a containment check of the
/// other two coordinates.  Shared by the three rectangle orientations and
/// the box faces.
pub open spec fn rect_hit_spec(
    a0: int, a1: int, b0: int, b1: int, k: int,
    oa: int, ob: int, ok: int, da: int, db: int, dk: int,
    lo: int, hi: int,
) -> Option<(int, int, int)> {
    if dk == 0 {
        None
    } else {
        let t = fx_div_spec(fx_sub_spec(k, ok), dk);
        if !(lo <= t <= hi) {
            None
        } else {
            let a = fx_add_spec(oa, fx_mul_spec(t, da));
            let b = fx_add_spec(ob, fx_mul_spec(t, db));
            if a < a0 || a > a1 || b < b0 || b > b1 {
                None
            } else {
                Some((t, a, b))
            }
        }
    }
}

/// Compute the rectangle candidate; returns `(t, a, b)` with the in-plane
/// coordinates of the hit.
fn rect_hit(
    a0: i64, a1: i64, b0: i64, b1: i64, k: i64,
    oa: i64, ob: i64, ok: i64, da: i64, db: i64, dk: i64,
    lo: i64, hi: i64,
) -> (res: Option<(i64, i64, i64)>)
    ensures
        match res {
            Some((t, a, b)) => rect_hit_spec(
                a0 as int, a1 as int, b0 as int, b1 as int, k as int,
                oa as int, ob as int, ok as int, da as int, db as int, dk as int,
                lo as int, hi as int) == Some((t as int, a as int, b as int)),
            None => rect_hit_spec(
                a0 as int, a1 as int, b0 as int, b1 as int, k as int,
                oa as int, ob as int, ok as int, da as int, db as int, dk as int,
                lo as int, hi as int) is None,
        },
{
    if dk == 0 {
        return None;
    }
    let t = fx_div(fx_sub(k, ok), dk);
    if t < lo || t > hi {
        return None;
    }
    let a = fx_add(oa, fx_mul(t, da));
    let b = fx_add(ob, fx_mul(t, db));
    if a < a0 || a > a1 || b < b0 || b > b1 {
        return None;
    }
    Some((t, a, b))
}

pub struct XYRect {
    pub x0: i64,
    pub x1: i64,
    pub y0: i64,
    pub y1: i64,
    pub k: i64,
    pub material: Material,
}

impl XYRect {
    pub fn new(x0: i64, x1: i64, y0: i64, y1: i64, k: i64, material: Material) -> (r: Self)
        ensures
            r == (XYRect { x0, x1, y0, y1, k, material }),
    {
        XYRect { x0, x1, y0, y1, k, material }
    }

    pub open spec fn wf(self) -> bool {
        self.x0 < self.x1 && self.y0 < self.y1
    }

    pub open spec fn hit_spec(self, r: Ray, lo: int, hi: int) -> Option<HitData> {
        match rect_hit_spec(
            self.x0 as int, self.x1 as int, self.y0 as int, self.y1 as int, self.k as int,
            r.orig.x as int, r.orig.y as int, r.orig.z as int,
            r.dir.x as int, r.dir.y as int, r.dir.z as int, lo, hi) {
            None => None,
            Some((t, x, y)) => {
                let uv = Vec2 {
                    x: fx_div_spec(fx_sub_spec(x, self.x0 as int), fx_sub_spec(self.x1 as int, self.x0 as int)) as i64,
                    y: fx_div_spec(fx_sub_spec(y, self.y0 as int), fx_sub_spec(self.y1 as int, self.y0 as int)) as i64,
                };
                let norm = Vec3 { x: 0i64, y: 0i64, z: FX_ONE };
                Some(HitData {
                    p: r.at_spec(t),
                    normal: HitRecord::oriented_normal(r, norm),
                    t: t as i64,
                    uv,
                    front_face: Vec3::dot_spec(r.dir, norm) < 0,
                    material: self.material,
                })
            },
        }
    }

    pub fn hit(&self, r: &Ray, tmin: i64, tmax: i64) -> (res: Option<HitRecord>)
        requires
            self.wf(),
        ensures
            ghost_of(res) == self.hit_spec(*r, tmin as int, tmax as int),
            res matches Some(h) ==> h.material == &self.material,
    {
        match rect_hit(
            self.x0, self.x1, self.y0, self.y1, self.k,
            r.orig.x, r.orig.y, r.orig.z, r.dir.x, r.dir.y, r.dir.z, tmin, tmax) {
            None => None,
            Some((t, x, y)) => {
                let uv = Vec2::new(
                    fx_div(fx_sub(x, self.x0), fx_sub(self.x1, self.x0)),
                    fx_div(fx_sub(y, self.y0), fx_sub(self.y1, self.y0)),
                );
                let norm = Vec3::new(0, 0, FX_ONE);
                let p = r.at(t);
                Some(HitRecord::new(r, p, t, uv, norm, &self.material))
            },
        }
    }

    pub open spec fn bounding_box_spec(self) -> Aabb {
        Aabb {
            min: Vec3 {
                x: self.x0,
                y: self.y0,
                z: fx_sub_spec(self.k as int, 1) as i64,
            },
            max: Vec3 {
                x: self.x1,
                y: self.y1,
                z: fx_add_spec(self.k as int, 1) as i64,
            },
        }
    }

    pub fn bounding_box(&self, _time0: i64, _time1: i64) -> (res: Option<Aabb>)
        ensures
            res == Some(self.bounding_box_spec()),
    {
        Some(Aabb::new(
            Vec3::new(self.x0, self.y0, fx_sub(self.k, 1)),
            Vec3::new(self.x1, self.y1, fx_add(self.k, 1)),
        ))
    }
}

pub struct XZRect {
    pub x0: i64,
    pub x1: i64,
    pub z0: i64,
    pub z1: i64,
    pub k: i64,
    pub material: Material,
}

impl XZRect {
    pub fn new(x0: i64, x1: i64, z0: i64, z1: i64, k: i64, material: Material) -> (r: Self)
        ensures
            r == (XZRect { x0, x1, z0, z1, k, material }),
    {
        XZRect { x0, x1, z0, z1, k, material }
    }

    pub open spec fn wf(self) -> bool {
        self.x0 < self.x1 && self.z0 < self.z1
    }

    pub open spec fn hit_spec(self, r: Ray, lo: int, hi: int) -> Option<HitData> {
        match rect_hit_spec(
            self.x0 as int, self.x1 as int, self.z0 as int, self.z1 as int, self.k as int,
            r.orig.x as int, r.orig.z as int, r.orig.y as int,
            r.dir.x as int, r.dir.z as int, r.dir.y as int, lo, hi) {
            None => None,
            Some((t, x, z)) => {
                let uv = Vec2 {
                    x: fx_div_spec(fx_sub_spec(x, self.x0 as int), fx_sub_spec(self.x1 as int, self.x0 as int)) as i64,
                    y: fx_div_spec(fx_sub_spec(z, self.z0 as int), fx_sub_spec(self.z1 as int, self.z0 as int)) as i64,
                };
                let norm = Vec3 { x: 0i64, y: FX_ONE, z: 0i64 };
                Some(HitData {
                    p: r.at_spec(t),
                    normal: HitRecord::oriented_normal(r, norm),
                    t: t as i64,
                    uv,
                    front_face: Vec3::dot_spec(r.dir, norm) < 0,
                    material: self.material,
                })
            },
        }
    }

    pub fn hit(&self, r: &Ray, tmin: i64, tmax: i64) -> (res: Option<HitRecord>)
        requires
            self.wf(),
        ensures
            ghost_of(res) == self.hit_spec(*r, tmin as int, tmax as int),
            res matches Some(h) ==> h.material == &self.material,
    {
        match rect_hit(
            self.x0, self.x1, self.z0, self.z1, self.k,
            r.orig.x, r.orig.z, r.orig.y, r.dir.x, r.dir.z, r.dir.y, tmin, tmax) {
            None => None,
            Some((t, x, z)) => {
                let uv = Vec2::new(
                    fx_div(fx_sub(x, self.x0), fx_sub(self.x1, self.x0)),
                    fx_div(fx_sub(z, self.z0), fx_sub(self.z1, self.z0)),
                );
                let norm = Vec3::new(0, FX_ONE, 0);
                let p = r.at(t);
                Some(HitRecord::new(r, p, t, uv, norm, &self.material))
            },
        }
    }

    pub open spec fn bounding_box_spec(self) -> Aabb {
        Aabb {
            min: Vec3 {
                x: self.x0,
                y: fx_sub_spec(self.k as int, 1) as i64,
                z: self.z0,
            },
            max: Vec3 {
                x: self.x1,
                y: fx_add_spec(self.k as int, 1) as i64,
                z: self.z1,
            },
        }
    }

    pub fn bounding_box(&self, _time0: i64, _time1: i64) -> (res: Option<Aabb>)
        ensures
            res == Some(self.bounding_box_spec()),
    {
        Some(Aabb::new(
            Vec3::new(self.x0, fx_sub(self.k, 1), self.z0),
            Vec3::new(self.x1, fx_add(self.k, 1), self.z1),
        ))
    }
}

pub struct YZRect {
    pub y0: i64,
    pub y1: i64,
    pub z0: i64,
    pub z1: i64,
    pub k: i64,
    pub material: Material,
}

impl YZRect {
    pub fn new(y0: i64, y1: i64, z0: i64, z1: i64, k: i64, material: Material) -> (r: Self)
        ensures
            r == (YZRect { y0, y1, z0, z1, k, material }),
    {
        YZRect { y0, y1, z0, z1, k, material }
    }

    pub open spec fn wf(self) -> bool {
        self.y0 < self.y1 && self.z0 < self.z1
    }

    pub open spec fn hit_spec(self, r: Ray, lo: int, hi: int) -> Option<HitData> {
        match rect_hit_spec(
            self.y0 as int, self.y1 as int, self.z0 as int, self.z1 as int, self.k as int,
            r.orig.y as int, r.orig.z as int, r.orig.x as int,
            r.dir.y as int, r.dir.z as int, r.dir.x as int, lo, hi) {
            None => None,
            Some((t, y, z)) => {
                let uv = Vec2 {
                    x: fx_div_spec(fx_sub_spec(y, self.y0 as int), fx_sub_spec(self.y1 as int, self.y0 as int)) as i64,
                    y: fx_div_spec(fx_sub_spec(z, self.z0 as int), fx_sub_spec(self.z1 as int, self.z0 as int)) as i64,
                };
                let norm = Vec3 { x: FX_ONE, y: 0i64, z: 0i64 };
                Some(HitData {
                    p: r.at_spec(t),
                    normal: HitRecord::oriented_normal(r, norm),
                    t: t as i64,
                    uv,
                    front_face: Vec3::dot_spec(r.dir, norm) < 0,
                    material: self.material,
                })
            },
        }
    }

    pub fn hit(&self, r: &Ray, tmin: i64, tmax: i64) -> (res: Option<HitRecord>)
        requires
            self.wf(),
        ensures
            ghost_of(res) == self.hit_spec(*r, tmin as int, tmax as int),
            res matches Some(h) ==> h.material == &self.material,
    {
        match rect_hit(
            self.y0, self.y1, self.z0, self.z1, self.k,
            r.orig.y, r.orig.z, r.orig.x, r.dir.y, r.dir.z, r.dir.x, tmin, tmax) {
            None => None,
            Some((t, y, z)) => {
                let uv = Vec2::new(
                    fx_div(fx_sub(y, self.y0), fx_sub(self.y1, self.y0)),
                    fx_div(fx_sub(z, self.z0), fx_sub(self.z1, self.z0)),
                );
                let norm = Vec3::new(FX_ONE, 0, 0);
                let p = r.at(t);
                Some(HitRecord::new(r, p, t, uv, norm, &self.material))
            },
        }
    }

    pub open spec fn bounding_box_spec(self) -> Aabb {
        Aabb {
            min: Vec3 {
                x: fx_sub_spec(self.k as int, 1) as i64,
                y: self.y0,
                z: self.z0,
            },
            max: Vec3 {
                x: fx_add_spec(self.k as int, 1) as i64,
                y: self.y1,
                z: self.z1,
            },
        }
    }

    pub fn bounding_box(&self, _time0: i64, _time1: i64) -> (res: Option<Aabb>)
        ensures
            res == Some(self.bounding_box_spec()),
    {
        Some(Aabb::new(
            Vec3::new(fx_sub(self.k, 1), self.y0, self.z0),
            Vec3::new(fx_add(self.k, 1), self.y1, self.z1),
        ))
    }
}


pub struct MovingSphere {
    pub center0: Vec3,
    pub center1: Vec3,
    pub time0: i64,
    pub time1: i64,
    pub radius: i64,
    pub material: Material,
}

impl MovingSphere {
    pub fn new(center0: Vec3, center1: Vec3, time0: i64, time1: i64, radius: i64, material: Material) -> (r: Self)
        ensures
            r.center0 == center0,
            r.center1 == center1,
            r.time0 == time0,
            r.time1 == time1,
            r.radius == radius,
            r.material == material,
    {
        MovingSphere { center0, center1, time0, time1, radius, material }
    }

    pub fn get_uv(&self, p: &Vec3) -> (r: Vec2)
        ensures
            r == Sphere::get_uv_spec(*p),
    {
        Vec2 {
            x: fx_mul(fx_add(p.x, FX_ONE), 32768),
            y: fx_mul(fx_add(p.y, FX_ONE), 32768),
        }
    }

    /// Linear interpolation of the two centres over the time interval.
    pub open spec fn center_spec(self, time: int) -> Vec3 {
        let f = fx_div_spec(fx_sub_spec(time, self.time0 as int), fx_sub_spec(self.time1 as int, self.time0 as int));
        Vec3::add_spec(self.center0, Vec3::scale_spec(Vec3::sub_spec(self.center1, self.center0), f))
    }

    fn center(&self, time: i64) -> (res: Vec3)
        requires
            self.time0 != self.time1,
        ensures
            res == self.center_spec(time as int),
    {
        let f = fx_div(fx_sub(time, self.time0), fx_sub(self.time1, self.time0));
        self.center0.add(self.center1.sub(self.center0).scale(f))
    }

    pub open spec fn outward_normal_spec(self, p: Vec3, center: Vec3) -> Vec3 {
        let d = Vec3::sub_spec(p, center);
        Vec3::v3(
            fx_div_spec(d.x as int, self.radius as int),
            fx_div_spec(d.y as int, self.radius as int),
            fx_div_spec(d.z as int, self.radius as int),
        )
    }

    pub open spec fn hit_spec(self, r: Ray, lo: int, hi: int) -> Option<HitData> {
        let center = self.center_spec(r.tm as int);
        let oc = Vec3::sub_spec(r.orig, center);
        let a = Vec3::dot_spec(r.dir, r.dir);
        let hb = Vec3::dot_spec(oc, r.dir);
        let c = fx_sub_spec(Vec3::dot_spec(oc, oc), fx_mul_spec(self.radius as int, self.radius as int));
        match quad_first_root_spec(a, hb, c, lo, hi) {
            None => None,
            Some(t) => {
                let p = r.at_spec(t);
                let outward = self.outward_normal_spec(p, center);
                Some(HitData {
                    p,
                    normal: HitRecord::oriented_normal(r, outward),
                    t: t as i64,
                    uv: Sphere::get_uv_spec(outward),
                    front_face: Vec3::dot_spec(r.dir, outward) < 0,
                    material: self.material,
                })
            },
        }
    }

    pub fn hit(&self, r: &Ray, tmin: i64, tmax: i64) -> (res: Option<HitRecord>)
        requires
            self.radius != 0,
            self.time0 != self.time1,
        ensures
            ghost_of(res) == self.hit_spec(*r, tmin as int, tmax as int),
            res matches Some(h) ==> h.material == &self.material,
    {
        let center = self.center(r.time());
        let oc = r.orig().sub(center);
        let a = Vec3::dot(r.dir(), r.dir());
        let hb = Vec3::dot(oc, r.dir());
        let c = fx_sub(Vec3::dot(oc, oc), fx_mul(self.radius, self.radius));
        proof {
            lemma_dot_in_sat_range(r.dir, r.dir);
            lemma_dot_in_sat_range(Vec3::sub_spec(r.orig, self.center_spec(r.tm as int)), r.dir);
            crate::fx::lemma_sat_range(
                Vec3::dot_spec(
                    Vec3::sub_spec(r.orig, self.center_spec(r.tm as int)),
                    Vec3::sub_spec(r.orig, self.center_spec(r.tm as int)))
                    - fx_mul_spec(self.radius as int, self.radius as int));
        }
        match quad_first_root(a, hb, c, tmin, tmax) {
            None => None,
            Some(t) => {
                let p = r.at(t);
                let d = p.sub(center);
                let outward = Vec3::new(
                    fx_div(d.x, self.radius),
                    fx_div(d.y, self.radius),
                    fx_div(d.z, self.radius),
                );
                let uv = self.get_uv(&outward);
                Some(HitRecord::new(r, p, t, uv, outward, &self.material))
            },
        }
    }

    pub open spec fn bounding_box_spec(self, time0: int, time1: int) -> Aabb {
        let rv = Vec3 { x: self.radius, y: self.radius, z: self.radius };
        let c0 = self.center_spec(time0);
        let c1 = self.center_spec(time1);
        let b0 = Aabb { min: Vec3::sub_spec(c0, rv), max: Vec3::add_spec(c0, rv) };
        let b1 = Aabb { min: Vec3::sub_spec(c1, rv), max: Vec3::add_spec(c1, rv) };
        Aabb::surrounding_box_spec(b0, b1)
    }

    pub fn bounding_box(&self, time0: i64, time1: i64) -> (res: Option<Aabb>)
        requires
            self.time0 != self.time1,
        ensures
            res == Some(self.bounding_box_spec(time0 as int, time1 as int)),
    {
        let rv = Vec3::newv(self.radius);
        let c0 = self.center(time0);
        let c1 = self.center(time1);
        let b0 = Aabb::new(c0.sub(rv), c0.add(rv));
        let b1 = Aabb::new(c1.sub(rv), c1.add(rv));
        Some(Aabb::surrounding_box(&b0, &b1))
    }
}

pub struct Cylinder {
    pub center: Vec3,
    pub radius: i64,
    pub material: Material,
}

impl Cylinder {
    pub fn new(center: Vec3, radius: i64, material: Material) -> (r: Self)
        ensures
            r.center == center,
            r.radius == radius,
            r.material == material,
    {
        Cylinder { center, radius, material }
    }

    /// Vertical surface: the second coordinate is constant one half.
    pub fn get_uv(&self, p: &Vec3) -> (r: Vec2)
        ensures
            r == (Vec2 {
                x: fx_mul_spec(fx_add_spec(p.x as int, FX_ONE as int), 32768) as i64,
                y: 32768i64,
            }),
    {
        Vec2 {
            x: fx_mul(fx_add(p.x, FX_ONE), 32768),
            y: 32768,
        }
    }

    pub open spec fn hit_spec(self, r: Ray, lo: int, hi: int) -> Option<HitData> {
        let oc = Vec3 { x: fx_sub_spec(r.orig.x as int, self.center.x as int) as i64, y: 0i64, z: fx_sub_spec(r.orig.z as int, self.center.z as int) as i64 };
        let rdir = Vec3 { x: r.dir.x, y: 0i64, z: r.dir.z };
        let a = Vec3::dot_spec(rdir, rdir);
        let hb = Vec3::dot_spec(oc, rdir);
        let c = fx_sub_spec(Vec3::dot_spec(oc, oc), fx_mul_spec(self.radius as int, self.radius as int));
        match quad_first_root_spec(a, hb, c, lo, hi) {
            None => None,
            Some(t) => {
                let p = r.at_spec(t);
                let d = Vec3::sub_spec(p, self.center);
                let outward = Vec3 {
                    x: fx_div_spec(d.x as int, self.radius as int) as i64,
                    y: 0i64,
                    z: fx_div_spec(d.z as int, self.radius as int) as i64,
                };
                Some(HitData {
                    p,
                    normal: HitRecord::oriented_normal(r, outward),
                    t: t as i64,
                    uv: Vec2 {
                        x: fx_mul_spec(fx_add_spec(outward.x as int, FX_ONE as int), 32768) as i64,
                        y: 32768i64,
                    },
                    front_face: Vec3::dot_spec(r.dir, outward) < 0,
                    material: self.material,
                })
            },
        }
    }

    pub fn hit(&self, r: &Ray, tmin: i64, tmax: i64) -> (res: Option<HitRecord>)
        requires
            self.radius != 0,
        ensures
            ghost_of(res) == self.hit_spec(*r, tmin as int, tmax as int),
            res matches Some(h) ==> h.material == &self.material,
    {
        let oc = Vec3::new(fx_sub(r.orig.x, self.center.x), 0, fx_sub(r.orig.z, self.center.z));
        let rdir = Vec3::new(r.dir.x, 0, r.dir.z);
        let a = Vec3::dot(rdir, rdir);
        let hb = Vec3::dot(oc, rdir);
        let c = fx_sub(Vec3::dot(oc, oc), fx_mul(self.radius, self.radius));
        proof {
            let goc = Vec3 { x: fx_sub_spec(r.orig.x as int, self.center.x as int) as i64, y: 0i64, z: fx_sub_spec(r.orig.z as int, self.center.z as int) as i64 };
            let grdir = Vec3 { x: r.dir.x, y: 0i64, z: r.dir.z };
            lemma_dot_in_sat_range(grdir, grdir);
            lemma_dot_in_sat_range(goc, grdir);
            crate::fx::lemma_sat_range(
                Vec3::dot_spec(goc, goc) - fx_mul_spec(self.radius as int, self.radius as int));
        }
        match quad_first_root(a, hb, c, tmin, tmax) {
            None => None,
            Some(t) => {
                let p = r.at(t);
                let d = p.sub(self.center);
                let outward = Vec3::new(fx_div(d.x, self.radius), 0, fx_div(d.z, self.radius));
                let uv = self.get_uv(&outward);
                Some(HitRecord::new(r, p, t, uv, outward, &self.material))
            },
        }
    }

    pub open spec fn bounding_box_spec(self) -> Aabb {
        let rv = Vec3 { x: self.radius, y: self.radius, z: self.radius };
        Aabb { min: Vec3::sub_spec(self.center, rv), max: Vec3::add_spec(self.center, rv) }
    }

    pub fn bounding_box(&self, _time0: i64, _time1: i64) -> (res: Option<Aabb>)
        ensures
            res == Some(self.bounding_box_spec()),
    {
        let rv = Vec3::newv(self.radius);
        Some(Aabb::new(self.center.sub(rv), self.center.add(rv)))
    }
}

pub struct Cone {
    pub center: Vec3,
    pub radius: i64,
    pub material: Material,
}

impl Cone {
    pub fn new(center: Vec3, radius: i64, material: Material) -> (r: Self)
        ensures
            r.center == center,
            r.radius == radius,
            r.material == material,
    {
        Cone { center, radius, material }
    }

    pub fn get_uv(&self, p: &Vec3) -> (r: Vec2)
        ensures
            r == Sphere::get_uv_spec(*p),
    {
        Vec2 {
            x: fx_mul(fx_add(p.x, FX_ONE), 32768),
            y: fx_mul(fx_add(p.y, FX_ONE), 32768),
        }
    }

    pub open spec fn hit_spec(self, r: Ray, lo: int, hi: int) -> Option<HitData> {
        let oc = Vec3::sub_spec(r.orig, self.center);
        let oc2 = Vec3 { x: oc.x, y: fx_neg_spec(oc.y as int) as i64, z: oc.z };
        let rdir2 = Vec3 { x: r.dir.x, y: fx_neg_spec(r.dir.y as int) as i64, z: r.dir.z };
        let a = Vec3::dot_spec(rdir2, r.dir);
        let hb = Vec3::dot_spec(oc, rdir2);
        let c = fx_sub_spec(Vec3::dot_spec(oc2, oc), fx_mul_spec(self.radius as int, self.radius as int));
        match quad_first_root_spec(a, hb, c, lo, hi) {
            None => None,
            Some(t) => {
                let p = r.at_spec(t);
                let d = Vec3::sub_spec(p, self.center);
                let outward = Vec3 {
                    x: fx_div_spec(d.x as int, self.radius as int) as i64,
                    y: fx_neg_spec(fx_div_spec(d.y as int, self.radius as int)) as i64,
                    z: fx_div_spec(d.z as int, self.radius as int) as i64,
                };
                Some(HitData {
                    p,
                    normal: HitRecord::oriented_normal(r, outward),
                    t: t as i64,
                    uv: Sphere::get_uv_spec(outward),
                    front_face: Vec3::dot_spec(r.dir, outward) < 0,
                    material: self.material,
                })
            },
        }
    }

    pub fn hit(&self, r: &Ray, tmin: i64, tmax: i64) -> (res: Option<HitRecord>)
        requires
            self.radius != 0,
        ensures
            ghost_of(res) == self.hit_spec(*r, tmin as int, tmax as int),
            res matches Some(h) ==> h.material == &self.material,
    {
        let oc = r.orig().sub(self.center);
        let oc2 = Vec3::new(oc.x, fx_neg(oc.y), oc.z);
        let rdir2 = Vec3::new(r.dir.x, fx_neg(r.dir.y), r.dir.z);
        let a = Vec3::dot(rdir2, r.dir());
        let hb = Vec3::dot(oc, rdir2);
        let c = fx_sub(Vec3::dot(oc2, oc), fx_mul(self.radius, self.radius));
        proof {
            let goc = Vec3::sub_spec(r.orig, self.center);
            let goc2 = Vec3 { x: goc.x, y: fx_neg_spec(goc.y as int) as i64, z: goc.z };
            let grdir2 = Vec3 { x: r.dir.x, y: fx_neg_spec(r.dir.y as int) as i64, z: r.dir.z };
            lemma_dot_in_sat_range(grdir2, r.dir);
            lemma_dot_in_sat_range(goc, grdir2);
            crate::fx::lemma_sat_range(
                Vec3::dot_spec(goc2, goc) - fx_mul_spec(self.radius as int, self.radius as int));
        }
        match quad_first_root(a, hb, c, tmin, tmax) {
            None => None,
            Some(t) => {
                let p = r.at(t);
                let d = p.sub(self.center);
                let outward = Vec3::new(
                    fx_div(d.x, self.radius),
                    fx_neg(fx_div(d.y, self.radius)),
                    fx_div(d.z, self.radius),
                );
                let uv = self.get_uv(&outward);
                Some(HitRecord::new(r, p, t, uv, outward, &self.material))
            },
        }
    }

    pub open spec fn bounding_box_spec(self) -> Aabb {
        let rv = Vec3 { x: self.radius, y: self.radius, z: self.radius };
        Aabb { min: Vec3::sub_spec(self.center, rv), max: Vec3::add_spec(self.center, rv) }
    }

    pub fn bounding_box(&self, _time0: i64, _time1: i64) -> (res: Option<Aabb>)
        ensures
            res == Some(self.bounding_box_spec()),
    {
        let rv = Vec3::newv(self.radius);
        Some(Aabb::new(self.center.sub(rv), self.center.add(rv)))
    }
}

pub struct Triangle {
    pub p0: Vec3,
    pub p1: Vec3,
    pub p2: Vec3,
    pub e0: Vec3,
    pub e1: Vec3,
    pub uv0: Vec2,
    pub uv1: Vec2,
    pub uv2: Vec2,
    pub n0: Vec3,
    pub n1: Vec3,
    pub n2: Vec3,
    pub material: Material,
}

/// Acceptance margin of the barycentric coordinates, one fixed-point step.
pub const FX_EPS: i64 = 1;

impl Triangle {
    pub fn new(p: [Vec3; 3], uv: [Vec2; 3], norm: [Vec3; 3], material: Material) -> (r: Self)
        ensures
            r.p0 == p[0] && r.p1 == p[1] && r.p2 == p[2],
            r.e0 == Vec3::sub_spec(p[1], p[0]),
            r.e1 == Vec3::sub_spec(p[2], p[0]),
            r.uv0 == uv[0] && r.uv1 == uv[1] && r.uv2 == uv[2],
            r.n0 == norm[0] && r.n1 == norm[1] && r.n2 == norm[2],
            r.material == material,
    {
        let e0 = p[1].sub(p[0]);
        let e1 = p[2].sub(p[0]);
        Triangle {
            p0: p[0], p1: p[1], p2: p[2],
            e0, e1,
            uv0: uv[0], uv1: uv[1], uv2: uv[2],
            n0: norm[0], n1: norm[1], n2: norm[2],
            material,
        }
    }

    /// Barycentric interpolation of the corner surface coordinates.
    pub open spec fn get_uv_spec(self, u: int, v: int) -> Vec2 {
        let w = fx_sub_spec(fx_sub_spec(FX_ONE as int, u), v);
        Vec2::add_spec(
            Vec2::add_spec(
                Vec2::scale_spec(self.uv1, u),
                Vec2::scale_spec(self.uv2, v),
            ),
            Vec2::scale_spec(self.uv0, w),
        )
    }

    /// Barycentric interpolation of the corner normals.
    pub open spec fn get_norm_spec(self, u: int, v: int) -> Vec3 {
        let w = fx_sub_spec(fx_sub_spec(FX_ONE as int, u), v);
        Vec3::add_spec(
            Vec3::add_spec(
                Vec3::scale_spec(self.n1, u),
                Vec3::scale_spec(self.n2, v),
            ),
            Vec3::scale_spec(self.n0, w),
        )
    }

    pub open spec fn hit_spec(self, r: Ray, lo: int, hi: int) -> Option<HitData> {
        let pvec = Vec3::cross_spec(r.dir, self.e1);
        let det = Vec3::dot_spec(self.e0, pvec);
        if det == 0 {
            None
        } else {
            let tt = Vec3::sub_spec(r.orig, self.p0);
            let u = fx_div_spec(Vec3::dot_spec(tt, pvec), det);
            if u < FX_EPS as int || u > FX_ONE + FX_EPS {
                None
            } else {
                let qvec = Vec3::cross_spec(tt, self.e0);
                let v = fx_div_spec(Vec3::dot_spec(r.dir, qvec), det);
                if v < FX_EPS as int || fx_add_spec(u, v) > FX_ONE + FX_EPS {
                    None
                } else {
                    let t = fx_div_spec(Vec3::dot_spec(self.e1, qvec), det);
                    if !(lo <= t <= hi) {
                        None
                    } else {
                        let norm = self.get_norm_spec(u, v);
                        Some(HitData {
                            p: r.at_spec(t),
                            normal: HitRecord::oriented_normal(r, norm),
                            t: t as i64,
                            uv: self.get_uv_spec(u, v),
                            front_face: Vec3::dot_spec(r.dir, norm) < 0,
                            material: self.material,
                        })
                    }
                }
            }
        }
    }

    pub fn hit(&self, r: &Ray, tmin: i64, tmax: i64) -> (res: Option<HitRecord>)
        ensures
            ghost_of(res) == self.hit_spec(*r, tmin as int, tmax as int),
            res matches Some(h) ==> h.material == &self.material,
    {
        let pvec = Vec3::cross(r.dir(), self.e1);
        let det = Vec3::dot(self.e0, pvec);
        if det == 0 {
            return None;
        }
        let tt = r.orig().sub(self.p0);
        let u = fx_div(Vec3::dot(tt, pvec), det);
        if u < FX_EPS || u > FX_ONE + FX_EPS {
            return None;
        }
        let qvec = Vec3::cross(tt, self.e0);
        let v = fx_div(Vec3::dot(r.dir(), qvec), det);
        if v < FX_EPS || fx_add(u, v) > FX_ONE + FX_EPS {
            return None;
        }
        let t = fx_div(Vec3::dot(self.e1, qvec), det);
        if t < tmin || t > tmax {
            return None;
        }
        let w = fx_sub(fx_sub(FX_ONE, u), v);
        let uv = self.uv1.scale(u).add(self.uv2.scale(v)).add(self.uv0.scale(w));
        let norm = self.n1.scale(u).add(self.n2.scale(v)).add(self.n0.scale(w));
        let p = r.at(t);
        Some(HitRecord::new(r, p, t, uv, norm, &self.material))
    }

    pub open spec fn bounding_box_spec(self) -> Aabb {
        Aabb {
            min: Vec3 {
                x: min3(self.p0.x, self.p1.x, self.p2.x),
                y: min3(self.p0.y, self.p1.y, self.p2.y),
                z: min3(self.p0.z, self.p1.z, self.p2.z),
            },
            max: Vec3 {
                x: max3(self.p0.x, self.p1.x, self.p2.x),
                y: max3(self.p0.y, self.p1.y, self.p2.y),
                z: max3(self.p0.z, self.p1.z, self.p2.z),
            },
        }
    }

    pub fn bounding_box(&self, _time0: i64, _time1: i64) -> (res: Option<Aabb>)
        ensures
            res == Some(self.bounding_box_spec()),
    {
        Some(Aabb::new(
            Vec3::new(
                min3_exec(self.p0.x, self.p1.x, self.p2.x),
                min3_exec(self.p0.y, self.p1.y, self.p2.y),
                min3_exec(self.p0.z, self.p1.z, self.p2.z),
            ),
            Vec3::new(
                max3_exec(self.p0.x, self.p1.x, self.p2.x),
                max3_exec(self.p0.y, self.p1.y, self.p2.y),
                max3_exec(self.p0.z, self.p1.z, self.p2.z),
            ),
        ))
    }
}

pub open spec fn min3(a: i64, b: i64, c: i64) -> i64 {
    if a < b { if a < c { a } else { c } } else { if b < c { b } else { c } }
}

pub open spec fn max3(a: i64, b: i64, c: i64) -> i64 {
    if a > b { if a > c { a } else { c } } else { if b > c { b } else { c } }
}

fn min3_exec(a: i64, b: i64, c: i64) -> (r: i64)
    ensures
        r == min3(a, b, c),
{
    if a < b { if a < c { a } else { c } } else { if b < c { b } else { c } }
}

fn max3_exec(a: i64, b: i64, c: i64) -> (r: i64)
    ensures
        r == max3(a, b, c),
{
    if a > b { if a > c { a } else { c } } else { if b > c { b } else { c } }
}


/// Componentwise minimum of two vectors, as a spec value.
pub open spec fn vmin(a: Vec3, b: Vec3) -> Vec3 {
    Vec3 {
        x: if a.x < b.x { a.x } else { b.x },
        y: if a.y < b.y { a.y } else { b.y },
        z: if a.z < b.z { a.z } else { b.z },
    }
}

/// Componentwise maximum of two vectors, as a spec value.
pub open spec fn vmax(a: Vec3, b: Vec3) -> Vec3 {
    Vec3 {
        x: if a.x > b.x { a.x } else { b.x },
        y: if a.y > b.y { a.y } else { b.y },
        z: if a.z > b.z { a.z } else { b.z },
    }
}

pub struct Translate {
    pub offset: Vec3,
    pub obj: Box<Primitive>,
}

/// The incoming ray moved into the child's local frame.
pub open spec fn moved_ray(r: Ray, offset: Vec3) -> Ray {
    Ray { orig: Vec3::sub_spec(r.orig, offset), dir: r.dir, tm: r.tm }
}

impl Translate {
    pub fn new(obj: Primitive, offset: Vec3) -> (r: Self)
        ensures
            *r.obj == obj,
            r.offset == offset,
    {
        Translate { offset, obj: Box::new(obj) }
    }

    pub open spec fn hit_spec(self, r: Ray, lo: int, hi: int) -> Option<HitData>
        decreases self,
    {
        let moved = moved_ray(r, self.offset);
        match (*self.obj).hit_spec(moved, lo, hi) {
            None => None,
            Some(h) => Some(HitData {
                p: Vec3::add_spec(h.p, self.offset),
                normal: HitRecord::oriented_normal(moved, h.normal),
                t: h.t,
                uv: h.uv,
                front_face: h.front_face,
                material: h.material,
            }),
        }
    }

    #[verifier::rlimit(100)]
    #[verifier::spinoff_prover]
    pub fn hit(&self, r: &Ray, tmin: i64, tmax: i64, s: &mut Sampler) -> (res: Option<HitRecord>)
        requires
            (*self.obj).wf(),
        ensures
            (*self.obj).det() ==> ghost_of(res) == self.hit_spec(*r, tmin as int, tmax as int),
            res matches Some(h) ==> (*h.material).wf(),
        decreases *self,
    {
        let moved_r = Ray::with_time(r.orig().sub(self.offset), r.dir(), r.time());
        if let Some(mut rec) = self.obj.hit(&moved_r, tmin, tmax, s) {
            rec.p = rec.p.add(self.offset);
            let n = rec.normal;
            rec.set_face_normal(&moved_r, n);
            Some(rec)
        } else {
            None
        }
    }

    pub open spec fn bounding_box_spec(self, time0: int, time1: int) -> Option<Aabb>
        decreases self,
    {
        match (*self.obj).bounding_box_spec(time0, time1) {
            None => None,
            Some(ab) => Some(Aabb {
                min: Vec3::add_spec(ab.min, self.offset),
                max: Vec3::add_spec(ab.max, self.offset),
            }),
        }
    }

    pub fn bounding_box(&self, time0: i64, time1: i64) -> (res: Option<Aabb>)
        requires
            (*self.obj).wf(),
        ensures
            res == self.bounding_box_spec(time0 as int, time1 as int),
        decreases *self,
    {
        if let Some(ab) = self.obj.bounding_box(time0, time1) {
            Some(Aabb::new(ab.min().add(self.offset), ab.max().add(self.offset)))
        } else {
            None
        }
    }
}

pub struct RotateY {
    pub obj: Box<Primitive>,
    pub sin_theta: i64,
    pub cos_theta: i64,
    pub aabb: Option<Aabb>,
}

/// Rotation about the y axis: `(c x + s z, y, -s x + c z)`.
pub open spec fn rot_y_spec(c: int, s: int, v: Vec3) -> Vec3 {
    Vec3::v3(
        fx_add_spec(fx_mul_spec(c, v.x as int), fx_mul_spec(s, v.z as int)),
        v.y as int,
        fx_sub_spec(fx_mul_spec(c, v.z as int), fx_mul_spec(s, v.x as int)),
    )
}

/// The inverse rotation: `(c x - s z, y, s x + c z)`.
pub open spec fn rot_y_inv_spec(c: int, s: int, v: Vec3) -> Vec3 {
    Vec3::v3(
        fx_sub_spec(fx_mul_spec(c, v.x as int), fx_mul_spec(s, v.z as int)),
        v.y as int,
        fx_add_spec(fx_mul_spec(s, v.x as int), fx_mul_spec(c, v.z as int)),
    )
}

fn rot_y(c: i64, s: i64, v: Vec3) -> (r: Vec3)
    ensures
        r == rot_y_spec(c as int, s as int, v),
{
    Vec3::new(
        fx_add(fx_mul(c, v.x), fx_mul(s, v.z)),
        v.y,
        fx_sub(fx_mul(c, v.z), fx_mul(s, v.x)),
    )
}

fn rot_y_inv(c: i64, s: i64, v: Vec3) -> (r: Vec3)
    ensures
        r == rot_y_inv_spec(c as int, s as int, v),
{
    Vec3::new(
        fx_sub(fx_mul(c, v.x), fx_mul(s, v.z)),
        v.y,
        fx_add(fx_mul(s, v.x), fx_mul(c, v.z)),
    )
}

/// The box of the rotated child: the componentwise hull of the eight
/// rotated corners of the child's box.
pub open spec fn rotate_box_spec(c: int, s: int, ab: Aabb) -> Aabb {
    let c000 = rot_y_spec(c, s, Vec3 { x: ab.min.x, y: ab.min.y, z: ab.min.z });
    let c001 = rot_y_spec(c, s, Vec3 { x: ab.min.x, y: ab.min.y, z: ab.max.z });
    let c010 = rot_y_spec(c, s, Vec3 { x: ab.min.x, y: ab.max.y, z: ab.min.z });
    let c011 = rot_y_spec(c, s, Vec3 { x: ab.min.x, y: ab.max.y, z: ab.max.z });
    let c100 = rot_y_spec(c, s, Vec3 { x: ab.max.x, y: ab.min.y, z: ab.min.z });
    let c101 = rot_y_spec(c, s, Vec3 { x: ab.max.x, y: ab.min.y, z: ab.max.z });
    let c110 = rot_y_spec(c, s, Vec3 { x: ab.max.x, y: ab.max.y, z: ab.min.z });
    let c111 = rot_y_spec(c, s, Vec3 { x: ab.max.x, y: ab.max.y, z: ab.max.z });
    Aabb {
        min: vmin(vmin(vmin(c000, c001), vmin(c010, c011)), vmin(vmin(c100, c101), vmin(c110, c111))),
        max: vmax(vmax(vmax(c000, c001), vmax(c010, c011)), vmax(vmax(c100, c101), vmax(c110, c111))),
    }
}

impl RotateY {
    /// The rotation angle enters through its sine and cosine, which the
    /// caller computes; the fixed-point scalar has no trigonometry.
    pub fn new(obj: Primitive, sin_theta: i64, cos_theta: i64) -> (r: Self)
        requires
            obj.wf(),
        ensures
            *r.obj == obj,
            r.sin_theta == sin_theta,
            r.cos_theta == cos_theta,
            r.aabb == match obj.bounding_box_spec(0, FX_ONE as int) {
                None => None::<Aabb>,
                Some(ab) => Some(rotate_box_spec(cos_theta as int, sin_theta as int, ab)),
            },
    {
        let aabb = match obj.bounding_box(0, FX_ONE) {
            None => None,
            Some(ab) => {
                let c000 = rot_y(cos_theta, sin_theta, Vec3::new(ab.min.x, ab.min.y, ab.min.z));
                let c001 = rot_y(cos_theta, sin_theta, Vec3::new(ab.min.x, ab.min.y, ab.max.z));
                let c010 = rot_y(cos_theta, sin_theta, Vec3::new(ab.min.x, ab.max.y, ab.min.z));
                let c011 = rot_y(cos_theta, sin_theta, Vec3::new(ab.min.x, ab.max.y, ab.max.z));
                let c100 = rot_y(cos_theta, sin_theta, Vec3::new(ab.max.x, ab.min.y, ab.min.z));
                let c101 = rot_y(cos_theta, sin_theta, Vec3::new(ab.max.x, ab.min.y, ab.max.z));
                let c110 = rot_y(cos_theta, sin_theta, Vec3::new(ab.max.x, ab.max.y, ab.min.z));
                let c111 = rot_y(cos_theta, sin_theta, Vec3::new(ab.max.x, ab.max.y, ab.max.z));
                let mn = Vec3::min(
                    Vec3::min(Vec3::min(c000, c001), Vec3::min(c010, c011)),
                    Vec3::min(Vec3::min(c100, c101), Vec3::min(c110, c111)),
                );
                let mx = Vec3::max(
                    Vec3::max(Vec3::max(c000, c001), Vec3::max(c010, c011)),
                    Vec3::max(Vec3::max(c100, c101), Vec3::max(c110, c111)),
                );
                Some(Aabb::new(mn, mx))
            },
        };
        RotateY { obj: Box::new(obj), sin_theta, cos_theta, aabb }
    }

    pub open spec fn hit_spec(self, r: Ray, lo: int, hi: int) -> Option<HitData>
        decreases self,
    {
        let c = self.cos_theta as int;
        let s = self.sin_theta as int;
        let rotated = Ray { orig: rot_y_inv_spec(c, s, r.orig), dir: rot_y_inv_spec(c, s, r.dir), tm: r.tm };
        match (*self.obj).hit_spec(rotated, lo, hi) {
            None => None,
            Some(h) => Some(HitData {
                p: rot_y_spec(c, s, h.p),
                normal: HitRecord::oriented_normal(rotated, rot_y_spec(c, s, h.normal)),
                t: h.t,
                uv: h.uv,
                front_face: h.front_face,
                material: h.material,
            }),
        }
    }

    #[verifier::rlimit(100)]
    #[verifier::spinoff_prover]
    pub fn hit(&self, r: &Ray, tmin: i64, tmax: i64, s: &mut Sampler) -> (res: Option<HitRecord>)
        requires
            (*self.obj).wf(),
        ensures
            (*self.obj).det() ==> ghost_of(res) == self.hit_spec(*r, tmin as int, tmax as int),
            res matches Some(h) ==> (*h.material).wf(),
        decreases *self,
    {
        let orig = rot_y_inv(self.cos_theta, self.sin_theta, r.orig());
        let dir = rot_y_inv(self.cos_theta, self.sin_theta, r.dir());
        let rotated_r = Ray::with_time(orig, dir, r.time());
        if let Some(mut rec) = self.obj.hit(&rotated_r, tmin, tmax, s) {
            let p = rot_y(self.cos_theta, self.sin_theta, rec.p);
            let normal = rot_y(self.cos_theta, self.sin_theta, rec.normal);
            rec.p = p;
            rec.set_face_normal(&rotated_r, normal);
            Some(rec)
        } else {
            None
        }
    }

    pub fn bounding_box(&self, _time0: i64, _time1: i64) -> (res: Option<Aabb>)
        ensures
            res == self.aabb,
    {
        self.aabb
    }
}

pub struct FlipFace {
    pub obj: Box<Primitive>,
}

impl FlipFace {
    pub fn new(obj: Primitive) -> (r: Self)
        ensures
            *r.obj == obj,
    {
        FlipFace { obj: Box::new(obj) }
    }

    pub open spec fn hit_spec(self, r: Ray, lo: int, hi: int) -> Option<HitData>
        decreases self,
    {
        match (*self.obj).hit_spec(r, lo, hi) {
            None => None,
            Some(h) => Some(HitData { front_face: !h.front_face, ..h }),
        }
    }

    #[verifier::rlimit(100)]
    #[verifier::spinoff_prover]
    pub fn hit(&self, r: &Ray, tmin: i64, tmax: i64, s: &mut Sampler) -> (res: Option<HitRecord>)
        requires
            (*self.obj).wf(),
        ensures
            (*self.obj).det() ==> ghost_of(res) == self.hit_spec(*r, tmin as int, tmax as int),
            res matches Some(h) ==> (*h.material).wf(),
        decreases *self,
    {
        if let Some(mut rec) = self.obj.hit(r, tmin, tmax, s) {
            rec.front_face = !rec.front_face;
            Some(rec)
        } else {
            None
        }
    }

    pub fn bounding_box(&self, time0: i64, time1: i64) -> (res: Option<Aabb>)
        requires
            (*self.obj).wf(),
        ensures
            res == (*self.obj).bounding_box_spec(time0 as int, time1 as int),
        decreases *self,
    {
        self.obj.bounding_box(time0, time1)
    }
}

pub struct Cube {
    pub p0: Vec3,
    pub p1: Vec3,
    pub material: Material,
}

/// The slab-plane candidate of face `face` of the box `[p0, p1]`: faces 0
/// and 1 are the z planes, 2 and 3 the y planes, 4 and 5 the x planes, the
/// high plane first in each pair.
pub open spec fn cube_face_hit(cb: Cube, face: int, r: Ray, lo: int, hi: int) -> Option<(int, int, int)> {
    if face == 0 {
        rect_hit_spec(cb.p0.x as int, cb.p1.x as int, cb.p0.y as int, cb.p1.y as int, cb.p1.z as int,
            r.orig.x as int, r.orig.y as int, r.orig.z as int,
            r.dir.x as int, r.dir.y as int, r.dir.z as int, lo, hi)
    } else if face == 1 {
        rect_hit_spec(cb.p0.x as int, cb.p1.x as int, cb.p0.y as int, cb.p1.y as int, cb.p0.z as int,
            r.orig.x as int, r.orig.y as int, r.orig.z as int,
            r.dir.x as int, r.dir.y as int, r.dir.z as int, lo, hi)
    } else if face == 2 {
        rect_hit_spec(cb.p0.x as int, cb.p1.x as int, cb.p0.z as int, cb.p1.z as int, cb.p1.y as int,
            r.orig.x as int, r.orig.z as int, r.orig.y as int,
            r.dir.x as int, r.dir.z as int, r.dir.y as int, lo, hi)
    } else if face == 3 {
        rect_hit_spec(cb.p0.x as int, cb.p1.x as int, cb.p0.z as int, cb.p1.z as int, cb.p0.y as int,
            r.orig.x as int, r.orig.z as int, r.orig.y as int,
            r.dir.x as int, r.dir.z as int, r.dir.y as int, lo, hi)
    } else if face == 4 {
        rect_hit_spec(cb.p0.y as int, cb.p1.y as int, cb.p0.z as int, cb.p1.z as int, cb.p1.x as int,
            r.orig.y as int, r.orig.z as int, r.orig.x as int,
            r.dir.y as int, r.dir.z as int, r.dir.x as int, lo, hi)
    } else {
        rect_hit_spec(cb.p0.y as int, cb.p1.y as int, cb.p0.z as int, cb.p1.z as int, cb.p0.x as int,
            r.orig.y as int, r.orig.z as int, r.orig.x as int,
            r.dir.y as int, r.dir.z as int, r.dir.x as int, lo, hi)
    }
}

/// The record face `face` reports for in-plane coordinates `(a, b)` at
/// parameter `t`.
pub open spec fn cube_face_data(cb: Cube, face: int, r: Ray, t: int, a: int, b: int) -> HitData {
    let norm = if face < 2 {
        Vec3 { x: 0i64, y: 0i64, z: FX_ONE }
    } else if face < 4 {
        Vec3 { x: 0i64, y: FX_ONE, z: 0i64 }
    } else {
        Vec3 { x: FX_ONE, y: 0i64, z: 0i64 }
    };
    let a0 = if face < 4 { cb.p0.x as int } else { cb.p0.y as int };
    let a1 = if face < 4 { cb.p1.x as int } else { cb.p1.y as int };
    let b0 = if face < 2 { cb.p0.y as int } else { cb.p0.z as int };
    let b1 = if face < 2 { cb.p1.y as int } else { cb.p1.z as int };
    HitData {
        p: r.at_spec(t),
        normal: HitRecord::oriented_normal(r, norm),
        t: t as i64,
        uv: Vec2 {
            x: fx_div_spec(fx_sub_spec(a, a0), fx_sub_spec(a1, a0)) as i64,
            y: fx_div_spec(fx_sub_spec(b, b0), fx_sub_spec(b1, b0)) as i64,
        },
        front_face: Vec3::dot_spec(r.dir, norm) < 0,
        material: cb.material,
    }
}

/// One step of the closest-face fold.
pub open spec fn cube_step(cb: Cube, face: int, r: Ray, lo: int, prev: Option<HitData>, hi: int) -> (Option<HitData>, int) {
    match cube_face_hit(cb, face, r, lo, hi) {
        Some((t, a, b)) => (Some(cube_face_data(cb, face, r, t, a, b)), t),
        None => (prev, hi),
    }
}

impl Cube {
    pub fn new(p0: Vec3, p1: Vec3, material: Material) -> (r: Self)
        ensures
            r.p0 == p0,
            r.p1 == p1,
            r.material == material,
    {
        Cube { p0, p1, material }
    }

    pub open spec fn wf(self) -> bool {
        self.p0.x < self.p1.x && self.p0.y < self.p1.y && self.p0.z < self.p1.z
    }

    /// The closest of the six face candidates, folded in face order with
    /// the running interval tightened after every hit.
    pub open spec fn hit_spec(self, r: Ray, lo: int, hi: int) -> Option<HitData> {
        let s0 = cube_step(self, 0, r, lo, None, hi);
        let s1 = cube_step(self, 1, r, lo, s0.0, s0.1);
        let s2 = cube_step(self, 2, r, lo, s1.0, s1.1);
        let s3 = cube_step(self, 3, r, lo, s2.0, s2.1);
        let s4 = cube_step(self, 4, r, lo, s3.0, s3.1);
        let s5 = cube_step(self, 5, r, lo, s4.0, s4.1);
        s5.0
    }

    #[verifier::rlimit(80)]
    pub fn hit(&self, r: &Ray, tmin: i64, tmax: i64) -> (res: Option<HitRecord>)
        requires
            self.wf(),
        ensures
            ghost_of(res) == self.hit_spec(*r, tmin as int, tmax as int),
            res matches Some(h) ==> h.material == &self.material,
    {
        let mut best: Option<(i64, i64, i64, u8)> = None;
        let mut cur_hi: i64 = tmax;

        if let Some((t, a, b)) = rect_hit(
            self.p0.x, self.p1.x, self.p0.y, self.p1.y, self.p1.z,
            r.orig.x, r.orig.y, r.orig.z, r.dir.x, r.dir.y, r.dir.z, tmin, cur_hi) {
            best = Some((t, a, b, 0));
            cur_hi = t;
        }
        if let Some((t, a, b)) = rect_hit(
            self.p0.x, self.p1.x, self.p0.y, self.p1.y, self.p0.z,
            r.orig.x, r.orig.y, r.orig.z, r.dir.x, r.dir.y, r.dir.z, tmin, cur_hi) {
            best = Some((t, a, b, 1));
            cur_hi = t;
        }
        if let Some((t, a, b)) = rect_hit(
            self.p0.x, self.p1.x, self.p0.z, self.p1.z, self.p1.y,
            r.orig.x, r.orig.z, r.orig.y, r.dir.x, r.dir.z, r.dir.y, tmin, cur_hi) {
            best = Some((t, a, b, 2));
            cur_hi = t;
        }
        if let Some((t, a, b)) = rect_hit(
            self.p0.x, self.p1.x, self.p0.z, self.p1.z, self.p0.y,
            r.orig.x, r.orig.z, r.orig.y, r.dir.x, r.dir.z, r.dir.y, tmin, cur_hi) {
            best = Some((t, a, b, 3));
            cur_hi = t;
        }
        if let Some((t, a, b)) = rect_hit(
            self.p0.y, self.p1.y, self.p0.z, self.p1.z, self.p1.x,
            r.orig.y, r.orig.z, r.orig.x, r.dir.y, r.dir.z, r.dir.x, tmin, cur_hi) {
            best = Some((t, a, b, 4));
            cur_hi = t;
        }
        if let Some((t, a, b)) = rect_hit(
            self.p0.y, self.p1.y, self.p0.z, self.p1.z, self.p0.x,
            r.orig.y, r.orig.z, r.orig.x, r.dir.y, r.dir.z, r.dir.x, tmin, cur_hi) {
            best = Some((t, a, b, 5));
            cur_hi = t;
        }

        match best {
            None => None,
            Some((t, a, b, face)) => {
                let norm = if face < 2 {
                    Vec3::new(0, 0, FX_ONE)
                } else if face < 4 {
                    Vec3::new(0, FX_ONE, 0)
                } else {
                    Vec3::new(FX_ONE, 0, 0)
                };
                let a0 = if face < 4 { self.p0.x } else { self.p0.y };
                let a1 = if face < 4 { self.p1.x } else { self.p1.y };
                let b0 = if face < 2 { self.p0.y } else { self.p0.z };
                let b1 = if face < 2 { self.p1.y } else { self.p1.z };
                let uv = Vec2::new(
                    fx_div(fx_sub(a, a0), fx_sub(a1, a0)),
                    fx_div(fx_sub(b, b0), fx_sub(b1, b0)),
                );
                let p = r.at(t);
                Some(HitRecord::new(r, p, t, uv, norm, &self.material))
            },
        }
    }

    /// The hull of the six padded face boxes: the corner points padded by
    /// one step on every axis.
    pub open spec fn bounding_box_spec(self) -> Aabb {
        Aabb {
            min: Vec3 {
                x: fx_sub_spec(self.p0.x as int, 1) as i64,
                y: fx_sub_spec(self.p0.y as int, 1) as i64,
                z: fx_sub_spec(self.p0.z as int, 1) as i64,
            },
            max: Vec3 {
                x: fx_add_spec(self.p1.x as int, 1) as i64,
                y: fx_add_spec(self.p1.y as int, 1) as i64,
                z: fx_add_spec(self.p1.z as int, 1) as i64,
            },
        }
    }

    pub fn bounding_box(&self, _time0: i64, _time1: i64) -> (res: Option<Aabb>)
        ensures
            res == Some(self.bounding_box_spec()),
    {
        Some(Aabb::new(
            Vec3::new(fx_sub(self.p0.x, 1), fx_sub(self.p0.y, 1), fx_sub(self.p0.z, 1)),
            Vec3::new(fx_add(self.p1.x, 1), fx_add(self.p1.y, 1), fx_add(self.p1.z, 1)),
        ))
    }
}

/// The closed set of scene primitives.
pub enum Primitive {
    Sphere(Sphere),
    MovingSphere(MovingSphere),
    Cylinder(Cylinder),
    Cone(Cone),
    Triangle(Triangle),
    XYRect(XYRect),
    XZRect(XZRect),
    YZRect(YZRect),
    Cube(Cube),
    Translate(Translate),
    RotateY(RotateY),
    FlipFace(FlipFace),
    ConstantMedium(ConstantMedium),
    Bvh(Box<crate::bvh::BvhNode>),
}

impl Primitive {
    /// Structural validity: construction parameters that the intersection
    /// arithmetic relies on, and well-formed materials throughout.
    pub open spec fn wf(self) -> bool
        decreases self,
    {
        match self {
            Primitive::Sphere(s) => s.radius != 0 && s.material.wf(),
            Primitive::MovingSphere(s) => s.radius != 0 && s.time0 != s.time1 && s.material.wf(),
            Primitive::Cylinder(s) => s.radius != 0 && s.material.wf(),
            Primitive::Cone(s) => s.radius != 0 && s.material.wf(),
            Primitive::Triangle(s) => s.material.wf(),
            Primitive::XYRect(s) => s.wf() && s.material.wf(),
            Primitive::XZRect(s) => s.wf() && s.material.wf(),
            Primitive::YZRect(s) => s.wf() && s.material.wf(),
            Primitive::Cube(s) => s.wf() && s.material.wf(),
            Primitive::Translate(s) => (*s.obj).wf(),
            Primitive::RotateY(s) => (*s.obj).wf(),
            Primitive::FlipFace(s) => (*s.obj).wf(),
            Primitive::ConstantMedium(s) => (*s.boundary).wf() && s.phase_function.wf(),
            Primitive::Bvh(n) => (*n).wf(),
        }
    }

    /// Whether the intersection behaviour is a function of the ray alone.
    pub open spec fn det(self) -> bool
        decreases self,
    {
        match self {
            Primitive::Sphere(_) => true,
            Primitive::MovingSphere(_) => true,
            Primitive::Cylinder(_) => true,
            Primitive::Cone(_) => true,
            Primitive::Triangle(_) => true,
            Primitive::XYRect(_) => true,
            Primitive::XZRect(_) => true,
            Primitive::YZRect(_) => true,
            Primitive::Cube(_) => true,
            Primitive::Translate(s) => (*s.obj).det(),
            Primitive::RotateY(s) => (*s.obj).det(),
            Primitive::FlipFace(s) => (*s.obj).det(),
            Primitive::ConstantMedium(_) => false,
            Primitive::Bvh(n) => (*n).det(),
        }
    }

    /// The intersection semantics of a deterministic primitive.  Opaque:
    /// reveal it where the per-variant definition is needed.
    #[verifier::opaque]
    pub open spec fn hit_spec(self, r: Ray, lo: int, hi: int) -> Option<HitData>
        decreases self,
    {
        match self {
            Primitive::Sphere(s) => s.hit_spec(r, lo, hi),
            Primitive::MovingSphere(s) => s.hit_spec(r, lo, hi),
            Primitive::Cylinder(s) => s.hit_spec(r, lo, hi),
            Primitive::Cone(s) => s.hit_spec(r, lo, hi),
            Primitive::Triangle(s) => s.hit_spec(r, lo, hi),
            Primitive::XYRect(s) => s.hit_spec(r, lo, hi),
            Primitive::XZRect(s) => s.hit_spec(r, lo, hi),
            Primitive::YZRect(s) => s.hit_spec(r, lo, hi),
            Primitive::Cube(s) => s.hit_spec(r, lo, hi),
            Primitive::Translate(s) => s.hit_spec(r, lo, hi),
            Primitive::RotateY(s) => s.hit_spec(r, lo, hi),
            Primitive::FlipFace(s) => s.hit_spec(r, lo, hi),
            Primitive::ConstantMedium(_) => None,
            Primitive::Bvh(n) => crate::bvh::bvh_hit_spec(*n, r, lo, hi),
        }
    }

    /// Closest hit in `[tmin, tmax]`, or `None`.
    pub fn hit(&self, r: &Ray, tmin: i64, tmax: i64, s: &mut Sampler) -> (res: Option<HitRecord>)
        requires
            self.wf(),
        ensures
            self.det() ==> ghost_of(res) == self.hit_spec(*r, tmin as int, tmax as int),
            res matches Some(h) ==> (*h.material).wf(),
        decreases *self,
    {
        proof {
            reveal(Primitive::hit_spec);
        }
        match self {
            Primitive::Sphere(o) => o.hit(r, tmin, tmax),
            Primitive::MovingSphere(o) => o.hit(r, tmin, tmax),
            Primitive::Cylinder(o) => o.hit(r, tmin, tmax),
            Primitive::Cone(o) => o.hit(r, tmin, tmax),
            Primitive::Triangle(o) => o.hit(r, tmin, tmax),
            Primitive::XYRect(o) => o.hit(r, tmin, tmax),
            Primitive::XZRect(o) => o.hit(r, tmin, tmax),
            Primitive::YZRect(o) => o.hit(r, tmin, tmax),
            Primitive::Cube(o) => o.hit(r, tmin, tmax),
            Primitive::Translate(o) => o.hit(r, tmin, tmax, s),
            Primitive::RotateY(o) => o.hit(r, tmin, tmax, s),
            Primitive::FlipFace(o) => o.hit(r, tmin, tmax, s),
            Primitive::ConstantMedium(o) => o.hit(r, tmin, tmax, s),
            Primitive::Bvh(n) => n.hit(r, tmin, tmax, s),
        }
    }

    pub open spec fn bounding_box_spec(self, time0: int, time1: int) -> Option<Aabb>
        decreases self,
    {
        match self {
            Primitive::Sphere(o) => Some(o.bounding_box_spec()),
            Primitive::MovingSphere(o) => Some(o.bounding_box_spec(time0, time1)),
            Primitive::Cylinder(o) => Some(o.bounding_box_spec()),
            Primitive::Cone(o) => Some(o.bounding_box_spec()),
            Primitive::Triangle(o) => Some(o.bounding_box_spec()),
            Primitive::XYRect(o) => Some(o.bounding_box_spec()),
            Primitive::XZRect(o) => Some(o.bounding_box_spec()),
            Primitive::YZRect(o) => Some(o.bounding_box_spec()),
            Primitive::Cube(o) => Some(o.bounding_box_spec()),
            Primitive::Translate(o) => o.bounding_box_spec(time0, time1),
            Primitive::RotateY(o) => o.aabb,
            Primitive::FlipFace(o) => (*o.obj).bounding_box_spec(time0, time1),
            Primitive::ConstantMedium(o) => (*o.boundary).bounding_box_spec(time0, time1),
            Primitive::Bvh(n) => Some((*n).aabb),
        }
    }

    /// A conservative box for the whole time interval; `None` would mean an
    /// unbounded primitive, which none of the closed set is.
    pub fn bounding_box(&self, time0: i64, time1: i64) -> (res: Option<Aabb>)
        requires
            self.wf(),
        ensures
            res == self.bounding_box_spec(time0 as int, time1 as int),
        decreases *self,
    {
        match self {
            Primitive::Sphere(o) => o.bounding_box(time0, time1),
            Primitive::MovingSphere(o) => o.bounding_box(time0, time1),
            Primitive::Cylinder(o) => o.bounding_box(time0, time1),
            Primitive::Cone(o) => o.bounding_box(time0, time1),
            Primitive::Triangle(o) => o.bounding_box(time0, time1),
            Primitive::XYRect(o) => o.bounding_box(time0, time1),
            Primitive::XZRect(o) => o.bounding_box(time0, time1),
            Primitive::YZRect(o) => o.bounding_box(time0, time1),
            Primitive::Cube(o) => o.bounding_box(time0, time1),
            Primitive::Translate(o) => o.bounding_box(time0, time1),
            Primitive::RotateY(o) => o.bounding_box(time0, time1),
            Primitive::FlipFace(o) => o.bounding_box(time0, time1),
            Primitive::ConstantMedium(o) => o.bounding_box(time0, time1),
            Primitive::Bvh(n) => n.bounding_box(time0, time1),
        }
    }
}


/// The per-variant reading of the opaque intersection semantics.
#[verifier::rlimit(100)]
#[verifier::spinoff_prover]
pub proof fn lemma_hit_spec_unfold(p: Primitive, r: Ray, lo: int, hi: int)
    ensures
        p.hit_spec(r, lo, hi) == (match p {
            Primitive::Sphere(s) => s.hit_spec(r, lo, hi),
            Primitive::MovingSphere(s) => s.hit_spec(r, lo, hi),
            Primitive::Cylinder(s) => s.hit_spec(r, lo, hi),
            Primitive::Cone(s) => s.hit_spec(r, lo, hi),
            Primitive::Triangle(s) => s.hit_spec(r, lo, hi),
            Primitive::XYRect(s) => s.hit_spec(r, lo, hi),
            Primitive::XZRect(s) => s.hit_spec(r, lo, hi),
            Primitive::YZRect(s) => s.hit_spec(r, lo, hi),
            Primitive::Cube(s) => s.hit_spec(r, lo, hi),
            Primitive::Translate(s) => s.hit_spec(r, lo, hi),
            Primitive::RotateY(s) => s.hit_spec(r, lo, hi),
            Primitive::FlipFace(s) => s.hit_spec(r, lo, hi),
            Primitive::ConstantMedium(_) => None,
            Primitive::Bvh(n) => crate::bvh::bvh_hit_spec(*n, r, lo, hi),
        }),
{
    reveal(Primitive::hit_spec);
}

/// What the light-surface sampler of a primitive may return: a direction
/// toward a drawn surface point for the shapes that can serve as lights,
/// the fixed x axis for the others.
pub open spec fn prim_sample_outcome(p: Primitive, o: Vec3, res: Vec3) -> bool
    decreases p,
{
    match p {
        Primitive::XZRect(rect) => rect.sample_outcome(o, res),
        Primitive::FlipFace(f) => prim_sample_outcome(*f.obj, o, res),
        _ => res == (Vec3 { x: FX_ONE, y: 0i64, z: 0i64 }),
    }
}

/// Solid-angle density of sampling direction `v` from origin `o` toward a
/// primitive: nonzero only for shapes that can serve as lights.
pub open spec fn prim_pdf_value_spec(p: Primitive, o: Vec3, v: Vec3) -> int
    decreases p,
{
    match p {
        Primitive::XZRect(rect) => rect.pdf_value_spec(o, v),
        Primitive::FlipFace(f) => prim_pdf_value_spec(*f.obj, o, v),
        _ => 0,
    }
}

impl XZRect {
    /// What the surface sampler may return: the (unnormalized) direction
    /// from `o` to some point of the rectangle's surface.
    pub open spec fn sample_outcome(self, o: Vec3, res: Vec3) -> bool {
        exists|px: i64, pz: i64|
            self.x0 <= px < self.x1 && self.z0 <= pz < self.z1 && res == #[trigger] Vec3::sub_spec(
                Vec3 { x: px, y: self.k, z: pz },
                o,
            )
    }

    /// distance^2 / (cos * area) for the ray from `o` along `v`, zero when
    /// the ray misses the rectangle or a factor degenerates to zero.
    pub open spec fn pdf_value_spec(self, o: Vec3, v: Vec3) -> int {
        let r = Ray { orig: o, dir: v, tm: 0i64 };
        match self.hit_spec(r, T_EPSILON as int, T_FAR as int) {
            None => 0,
            Some(h) => {
                let area = fx_mul_spec(
                    fx_sub_spec(self.x1 as int, self.x0 as int),
                    fx_sub_spec(self.z1 as int, self.z0 as int),
                );
                let dist2 = fx_mul_spec(fx_mul_spec(h.t as int, h.t as int), Vec3::dot_spec(v, v));
                let len = Vec3::length_spec(v);
                if len == 0 {
                    0
                } else {
                    let cosine = abs_int(fx_div_spec(Vec3::dot_spec(v, h.normal), len));
                    let denom = fx_mul_spec(cosine, area);
                    if denom == 0 {
                        0
                    } else {
                        fx_div_spec(dist2, denom)
                    }
                }
            },
        }
    }

    pub fn pdf_value(&self, o: Vec3, v: Vec3) -> (res: i64)
        requires
            self.wf(),
        ensures
            res as int == self.pdf_value_spec(o, v),
    {
        let r = Ray::new(o, v);
        match self.hit(&r, T_EPSILON, T_FAR) {
            None => 0,
            Some(rec) => {
                let area = fx_mul(fx_sub(self.x1, self.x0), fx_sub(self.z1, self.z0));
                let dist2 = fx_mul(fx_mul(rec.t, rec.t), Vec3::dot(v, v));
                let len = Vec3::length(v);
                if len == 0 {
                    0
                } else {
                    let c0 = fx_div(Vec3::dot(v, rec.normal), len);
                    let cosine = if c0 < 0 { fx_neg(c0) } else { c0 };
                    proof {
                        crate::fx::lemma_sat_neg(
                            crate::fx::tdiv(
                                Vec3::dot_spec(v, rec.normal) * (FX_ONE as int),
                                Vec3::length_spec(v)));
                    }
                    let denom = fx_mul(cosine, area);
                    if denom == 0 {
                        0
                    } else {
                        fx_div(dist2, denom)
                    }
                }
            },
        }
    }

    /// The direction from `o` to a uniform point of the rectangle.
    pub fn random(&self, o: Vec3, s: &mut Sampler) -> (res: Vec3)
        requires
            self.wf(),
        ensures
            self.sample_outcome(o, res),
    {
        let px = s.next_in(self.x0, self.x1);
        let pz = s.next_in(self.z0, self.z1);
        let random_point = Vec3::new(px, self.k, pz);
        let res = random_point.sub(o);
        proof {
            assert(res == Vec3::sub_spec(Vec3 { x: px, y: self.k, z: pz }, o));
        }
        res
    }
}

impl Primitive {
    /// Solid-angle density of direction `v` for light sampling; zero for
    /// shapes that are not lights.
    pub fn pdf_value(&self, o: Vec3, v: Vec3) -> (res: i64)
        requires
            self.wf(),
        ensures
            res as int == prim_pdf_value_spec(*self, o, v),
        decreases *self,
    {
        match self {
            Primitive::XZRect(rect) => rect.pdf_value(o, v),
            Primitive::FlipFace(f) => f.obj.pdf_value(o, v),
            _ => 0,
        }
    }

    /// A direction from `o` toward a random point of the primitive's
    /// surface; the fixed x axis for shapes that are not lights.
    pub fn random(&self, o: Vec3, s: &mut Sampler) -> (res: Vec3)
        requires
            self.wf(),
        ensures
            prim_sample_outcome(*self, o, res),
        decreases *self,
    {
        match self {
            Primitive::XZRect(rect) => rect.random(o, s),
            Primitive::FlipFace(f) => f.obj.random(o, s),
            _ => Vec3::new(FX_ONE, 0, 0),
        }
    }

    /// Every material in the tree is a non-emitting diffuse surface.
    pub open spec fn all_lambertian(self) -> bool
        decreases self,
    {
        match self {
            Primitive::Sphere(s) => s.material is Lambertian,
            Primitive::MovingSphere(s) => s.material is Lambertian,
            Primitive::Cylinder(s) => s.material is Lambertian,
            Primitive::Cone(s) => s.material is Lambertian,
            Primitive::Triangle(s) => s.material is Lambertian,
            Primitive::XYRect(s) => s.material is Lambertian,
            Primitive::XZRect(s) => s.material is Lambertian,
            Primitive::YZRect(s) => s.material is Lambertian,
            Primitive::Cube(s) => s.material is Lambertian,
            Primitive::Translate(s) => (*s.obj).all_lambertian(),
            Primitive::RotateY(s) => (*s.obj).all_lambertian(),
            Primitive::FlipFace(s) => (*s.obj).all_lambertian(),
            Primitive::ConstantMedium(_) => false,
            Primitive::Bvh(n) => {
                &&& match (*n).left {
                    Some(p) => (*p).all_lambertian(),
                    None => true,
                }
                &&& match (*n).right {
                    Some(p) => (*p).all_lambertian(),
                    None => true,
                }
            },
        }
    }
}


/// A participating medium of constant density inside a boundary shape.
/// The free path before a scattering event is random, so this primitive's
/// intersection is not a function of the ray; its contract states what
/// holds of every outcome.
pub struct ConstantMedium {
    pub boundary: Box<Primitive>,
    pub phase_function: Material,
    pub neg_inv_density: i64,
}

/// A coarse negative binary logarithm: the number of doublings that lift
/// `u` to one, in fixed-point units.  It shapes the random free-path
/// length; only its sign and bound matter to any stated law.
fn neg_log2_coarse(u: i64) -> (r: i64)
    requires
        1 <= u <= FX_ONE,
    ensures
        0 <= r <= 16 * FX_ONE,
        u >= FX_ONE ==> r == 0,
{
    let mut v = u;
    let mut e: i64 = 0;
    proof {
        vstd::arithmetic::power2::lemma2_to64();
    }
    while v < 65536
        invariant
            1 <= v <= 131070,
            0 <= e <= 16,
            v as int >= vstd::arithmetic::power2::pow2(e as nat),
            u >= 65536 ==> e == 0 && v == u,
        decreases 16 - e,
    {
        proof {
            vstd::arithmetic::power2::lemma2_to64();
            if e >= 16 {
                assert(vstd::arithmetic::power2::pow2(16) == 65536);
                assert(false);
            }
            vstd::arithmetic::power2::lemma_pow2_unfold((e + 1) as nat);
        }
        v = v * 2;
        e = e + 1;
    }
    e * FX_ONE
}

impl ConstantMedium {
    /// `d` is the density; the stored factor is `-1/d`.
    pub fn new(b: Primitive, d: i64, a: Texture) -> (r: Self)
        requires
            d != 0,
        ensures
            *r.boundary == b,
            r.phase_function == Material::Isotropic(Isotropic { albedo: a }),
            r.neg_inv_density as int == fx_div_spec(fx_neg_spec(FX_ONE as int), d as int),
    {
        let neg_inv_density = fx_div(fx_neg(FX_ONE), d);
        ConstantMedium {
            boundary: Box::new(b),
            phase_function: Material::Isotropic(Isotropic::new(a)),
            neg_inv_density,
        }
    }

    /// Probabilistic intersection: enter and leave the boundary, then draw
    /// an exponential-like free path; a hit occurs when the path ends
    /// inside.  Every reported hit carries the phase-function material.
    pub fn hit(&self, r: &Ray, tmin: i64, tmax: i64, s: &mut Sampler) -> (res: Option<HitRecord>)
        requires
            (*self.boundary).wf(),
            self.phase_function.wf(),
        ensures
            res matches Some(h) ==> *h.material == self.phase_function,
            res matches Some(h) ==> h.p == r.at_spec(h.t as int),
            (*self.boundary).det() && (*self.boundary).hit_spec(*r, -T_FAR as int, T_FAR as int)
                is None ==> res is None,
        decreases *self,
    {
        let rec1 = match self.boundary.hit(r, -T_FAR, T_FAR, s) {
            None => {
                return None;
            },
            Some(rec) => rec,
        };
        let rec2 = match self.boundary.hit(r, fx_add(rec1.t, 7), T_FAR, s) {
            None => {
                return None;
            },
            Some(rec) => rec,
        };
        let mut t1 = rec1.t;
        let mut t2 = rec2.t;
        if t1 < tmin {
            t1 = tmin;
        }
        if t2 > tmax {
            t2 = tmax;
        }
        if t1 >= t2 {
            return None;
        }
        if t1 < 0 {
            t1 = 0;
        }
        let ray_length = Vec3::length(r.dir());
        if ray_length == 0 {
            return None;
        }
        let distance_inside_boundary = fx_mul(fx_sub(t2, t1), ray_length);
        let u = s.next_in(1, FX_ONE + 1);
        let hit_distance = fx_mul(self.neg_inv_density, fx_neg(neg_log2_coarse(u)));
        if hit_distance > distance_inside_boundary {
            return None;
        }
        let t = fx_add(t1, fx_div(hit_distance, ray_length));
        let p = r.at(t);
        Some(HitRecord::new(r, p, t, Vec2::zero(), Vec3::new(FX_ONE, 0, 0), &self.phase_function))
    }

    pub fn bounding_box(&self, time0: i64, time1: i64) -> (res: Option<Aabb>)
        requires
            (*self.boundary).wf(),
        ensures
            res == (*self.boundary).bounding_box_spec(time0 as int, time1 as int),
        decreases *self,
    {
        self.boundary.bounding_box(time0, time1)
    }
}


impl Primitive {
    /// The depth probe of a shape that is not a tree: the hit parameter
    /// with one level visited.
    pub open spec fn bvh_depth_spec(self, r: Ray, lo: int, hi: int) -> Option<(i64, u32)>
        decreases self,
    {
        match self {
            Primitive::Translate(w) => (*w.obj).bvh_depth_spec(moved_ray(r, w.offset), lo, hi),
            Primitive::RotateY(w) => {
                let c = w.cos_theta as int;
                let s = w.sin_theta as int;
                let rotated = Ray {
                    orig: rot_y_inv_spec(c, s, r.orig),
                    dir: rot_y_inv_spec(c, s, r.dir),
                    tm: r.tm,
                };
                (*w.obj).bvh_depth_spec(rotated, lo, hi)
            },
            Primitive::FlipFace(w) => (*w.obj).bvh_depth_spec(r, lo, hi),
            Primitive::Bvh(n) => crate::bvh::bvh_depth_spec(*n, r, lo, hi),
            _ => match self.hit_spec(r, lo, hi) {
                Some(h) => Some((h.t, 1u32)),
                None => None,
            },
        }
    }

    /// Traversal-cost probe: like `hit`, but carrying the number of tree
    /// levels visited.  Transform wrappers add nothing; each tree node adds
    /// one level.
    pub fn bvh_depth(&self, r: &Ray, tmin: i64, tmax: i64, s: &mut Sampler) -> (res: Option<(
        i64,
        u32,
    )>)
        requires
            self.wf(),
        ensures
            self.det() ==> res == self.bvh_depth_spec(*r, tmin as int, tmax as int),
        decreases *self,
    {
        match self {
            Primitive::Translate(o) => {
                let moved_r = Ray::with_time(r.orig().sub(o.offset), r.dir(), r.time());
                o.obj.bvh_depth(&moved_r, tmin, tmax, s)
            },
            Primitive::RotateY(o) => {
                let orig = rot_y_inv(o.cos_theta, o.sin_theta, r.orig());
                let dir = rot_y_inv(o.cos_theta, o.sin_theta, r.dir());
                let rotated_r = Ray::with_time(orig, dir, r.time());
                o.obj.bvh_depth(&rotated_r, tmin, tmax, s)
            },
            Primitive::FlipFace(o) => o.obj.bvh_depth(r, tmin, tmax, s),
            Primitive::Bvh(n) => n.bvh_depth(r, tmin, tmax, s),
            _ => {
                match self.hit(r, tmin, tmax, s) {
                    Some(rec) => Some((rec.t, 1)),
                    None => None,
                }
            },
        }
    }
}

/// The ray-parameter floor used to avoid self-intersection, about one
/// thousandth of a unit.
pub const T_EPSILON: i64 = 66;

/// The stand-in for an unbounded upper ray parameter.
pub const T_FAR: i64 = 0x4000_0000_0000_0000;

} // verus!
