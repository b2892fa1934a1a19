//! Small fixed-size vectors over the fixed-point scalar.
//!
//! `Vec3` carries positions, directions and colours; `Vec2` carries surface
//! parameters; `Vec4` and `Vec1` round out the family.  Every arithmetic
//! operation has an exact specification built from the scalar specs in
//! `crate::fx`.

use vstd::prelude::*;
use crate::fx::fx_add;
use crate::fx::fx_add_spec;
use crate::fx::fx_div;
use crate::fx::fx_div_spec;
use crate::fx::fx_mul;
use crate::fx::fx_mul_spec;
use crate::fx::fx_neg;
use crate::fx::fx_neg_spec;
use crate::fx::fx_sqrt;
use crate::fx::fx_sqrt_spec;
use crate::fx::fx_sub;
use crate::fx::fx_sub_spec;
use crate::fx::lemma_fx_add_neg;
use crate::fx::lemma_fx_mul_neg_left;
use crate::fx::lemma_tdiv_pos;
use crate::fx::lemma_fx_square_nonneg;
use crate::fx::FX_ONE;
use crate::fx::FX_SAT;
use crate::sampler::Sampler;

verus! {

#[derive(Clone, Copy, Debug, PartialEq, Eq, Structural)]
pub struct Vec4 {
    pub x: i64,
    pub y: i64,
    pub z: i64,
    pub w: i64,
}

#[derive(Clone, Copy, Debug, PartialEq, Eq, Structural)]
pub struct Vec3 {
    pub x: i64,
    pub y: i64,
    pub z: i64,
}

#[derive(Clone, Copy, Debug, PartialEq, Eq, Structural)]
pub struct Vec2 {
    pub x: i64,
    pub y: i64,
}

#[derive(Clone, Copy, Debug, PartialEq, Eq, Structural)]
pub struct Vec1 {
    pub x: i64,
}

impl Vec4 {
    pub fn new(x: i64, y: i64, z: i64, w: i64) -> (r: Self)
        ensures
            r == (Vec4 { x, y, z, w }),
    {
        Vec4 { x, y, z, w }
    }

    pub fn newv(v: i64) -> (r: Self)
        ensures
            r == (Vec4 { x: v, y: v, z: v, w: v }),
    {
        Vec4 { x: v, y: v, z: v, w: v }
    }

    pub fn x(self) -> (r: i64)
        ensures
            r == self.x,
    {
        self.x
    }

    pub fn y(self) -> (r: i64)
        ensures
            r == self.y,
    {
        self.y
    }

    pub fn z(self) -> (r: i64)
        ensures
            r == self.z,
    {
        self.z
    }

    pub fn w(self) -> (r: i64)
        ensures
            r == self.w,
    {
        self.w
    }

    /// Sum of the componentwise fixed-point products.
    pub fn dot(lhs: Self, rhs: Self) -> (r: i64)
        ensures
            r as int == Self::dot_spec(lhs, rhs),
    {
        let mut ret: i64 = fx_mul(lhs.x, rhs.x);
        ret = fx_add(ret, fx_mul(lhs.y, rhs.y));
        ret = fx_add(ret, fx_mul(lhs.z, rhs.z));
        ret = fx_add(ret, fx_mul(lhs.w, rhs.w));
        ret
    }

    pub open spec fn dot_spec(a: Self, b: Self) -> int {
        fx_add_spec(
            fx_add_spec(
                fx_add_spec(
                    fx_mul_spec(a.x as int, b.x as int),
                    fx_mul_spec(a.y as int, b.y as int),
                ),
                fx_mul_spec(a.z as int, b.z as int),
            ),
            fx_mul_spec(a.w as int, b.w as int),
        )
    }

    pub fn add(self, rhs: Self) -> (r: Self)
        ensures
            r.x as int == fx_add_spec(self.x as int, rhs.x as int),
            r.y as int == fx_add_spec(self.y as int, rhs.y as int),
            r.z as int == fx_add_spec(self.z as int, rhs.z as int),
            r.w as int == fx_add_spec(self.w as int, rhs.w as int),
    {
        Vec4 {
            x: fx_add(self.x, rhs.x),
            y: fx_add(self.y, rhs.y),
            z: fx_add(self.z, rhs.z),
            w: fx_add(self.w, rhs.w),
        }
    }
}

impl Default for Vec4 {
    fn default() -> (r: Self)
        ensures
            r == (Vec4 { x: 0i64, y: 0i64, z: 0i64, w: 0i64 }),
    {
        Vec4 { x: 0, y: 0, z: 0, w: 0 }
    }
}

impl Vec3 {
    pub fn new(x: i64, y: i64, z: i64) -> (r: Self)
        ensures
            r == (Vec3 { x, y, z }),
    {
        Vec3 { x, y, z }
    }

    pub fn newv(v: i64) -> (r: Self)
        ensures
            r == (Vec3 { x: v, y: v, z: v }),
    {
        Vec3 { x: v, y: v, z: v }
    }

    pub fn x(self) -> (r: i64)
        ensures
            r == self.x,
    {
        self.x
    }

    pub fn y(self) -> (r: i64)
        ensures
            r == self.y,
    {
        self.y
    }

    pub fn z(self) -> (r: i64)
        ensures
            r == self.z,
    {
        self.z
    }

    pub fn zero() -> (r: Self)
        ensures
            r == (Vec3 { x: 0i64, y: 0i64, z: 0i64 }),
    {
        Vec3 { x: 0, y: 0, z: 0 }
    }

    pub fn one() -> (r: Self)
        ensures
            r == (Vec3 { x: FX_ONE, y: FX_ONE, z: FX_ONE }),
    {
        Vec3 { x: FX_ONE, y: FX_ONE, z: FX_ONE }
    }

    /// All components within the saturation range of the scalar arithmetic.
    /// Every result of the vector operations satisfies this; only raw
    /// constructed values can fall outside it.
    pub open spec fn bounded(v: Self) -> bool {
        &&& -(FX_SAT as int) <= v.x as int <= FX_SAT as int
        &&& -(FX_SAT as int) <= v.y as int <= FX_SAT as int
        &&& -(FX_SAT as int) <= v.z as int <= FX_SAT as int
    }

    pub open spec fn v3(x: int, y: int, z: int) -> Vec3 {
        Vec3 { x: x as i64, y: y as i64, z: z as i64 }
    }

    pub open spec fn add_spec(a: Self, b: Self) -> Vec3 {
        Self::v3(
            fx_add_spec(a.x as int, b.x as int),
            fx_add_spec(a.y as int, b.y as int),
            fx_add_spec(a.z as int, b.z as int),
        )
    }

    pub open spec fn sub_spec(a: Self, b: Self) -> Vec3 {
        Self::v3(
            fx_sub_spec(a.x as int, b.x as int),
            fx_sub_spec(a.y as int, b.y as int),
            fx_sub_spec(a.z as int, b.z as int),
        )
    }

    pub open spec fn neg_spec(a: Self) -> Vec3 {
        Self::v3(
            fx_neg_spec(a.x as int),
            fx_neg_spec(a.y as int),
            fx_neg_spec(a.z as int),
        )
    }

    pub open spec fn scale_spec(a: Self, s: int) -> Vec3 {
        Self::v3(
            fx_mul_spec(a.x as int, s),
            fx_mul_spec(a.y as int, s),
            fx_mul_spec(a.z as int, s),
        )
    }

    pub open spec fn mul_spec(a: Self, b: Self) -> Vec3 {
        Self::v3(
            fx_mul_spec(a.x as int, b.x as int),
            fx_mul_spec(a.y as int, b.y as int),
            fx_mul_spec(a.z as int, b.z as int),
        )
    }

    pub open spec fn dot_spec(a: Self, b: Self) -> int {
        fx_add_spec(
            fx_add_spec(
                fx_mul_spec(a.x as int, b.x as int),
                fx_mul_spec(a.y as int, b.y as int),
            ),
            fx_mul_spec(a.z as int, b.z as int),
        )
    }

    pub open spec fn cross_spec(a: Self, b: Self) -> Vec3 {
        Self::v3(
            fx_sub_spec(fx_mul_spec(a.y as int, b.z as int), fx_mul_spec(a.z as int, b.y as int)),
            fx_sub_spec(fx_mul_spec(a.z as int, b.x as int), fx_mul_spec(a.x as int, b.z as int)),
            fx_sub_spec(fx_mul_spec(a.x as int, b.y as int), fx_mul_spec(a.y as int, b.x as int)),
        )
    }

    pub open spec fn length_spec(a: Self) -> int {
        fx_sqrt_spec(Self::dot_spec(a, a))
    }

    pub open spec fn normalize_spec(a: Self) -> Vec3 {
        if Self::length_spec(a) == 0 {
            a
        } else {
            Self::v3(
                fx_div_spec(a.x as int, Self::length_spec(a)),
                fx_div_spec(a.y as int, Self::length_spec(a)),
                fx_div_spec(a.z as int, Self::length_spec(a)),
            )
        }
    }

    /// lhs - rhs * dot(lhs, rhs) * 2: mirror reflection about `rhs`.
    pub open spec fn reflect_spec(lhs: Self, rhs: Self) -> Vec3 {
        Self::sub_spec(
            lhs,
            Self::scale_spec(Self::scale_spec(rhs, Self::dot_spec(lhs, rhs)), 2 * FX_ONE as int),
        )
    }

    pub fn add(self, rhs: Self) -> (r: Self)
        ensures
            r == Self::add_spec(self, rhs),
    {
        Vec3 {
            x: fx_add(self.x, rhs.x),
            y: fx_add(self.y, rhs.y),
            z: fx_add(self.z, rhs.z),
        }
    }

    pub fn sub(self, rhs: Self) -> (r: Self)
        ensures
            r == Self::sub_spec(self, rhs),
    {
        Vec3 {
            x: fx_sub(self.x, rhs.x),
            y: fx_sub(self.y, rhs.y),
            z: fx_sub(self.z, rhs.z),
        }
    }

    pub fn neg(self) -> (r: Self)
        ensures
            r == Self::neg_spec(self),
    {
        Vec3 {
            x: fx_neg(self.x),
            y: fx_neg(self.y),
            z: fx_neg(self.z),
        }
    }

    /// Scale by a fixed-point scalar.
    pub fn scale(self, s: i64) -> (r: Self)
        ensures
            r == Self::scale_spec(self, s as int),
    {
        Vec3 {
            x: fx_mul(self.x, s),
            y: fx_mul(self.y, s),
            z: fx_mul(self.z, s),
        }
    }

    /// Componentwise product, used for colour attenuation.
    pub fn mul(self, rhs: Self) -> (r: Self)
        ensures
            r == Self::mul_spec(self, rhs),
    {
        Vec3 {
            x: fx_mul(self.x, rhs.x),
            y: fx_mul(self.y, rhs.y),
            z: fx_mul(self.z, rhs.z),
        }
    }

    pub fn dot(lhs: Self, rhs: Self) -> (r: i64)
        ensures
            r as int == Self::dot_spec(lhs, rhs),
    {
        fx_add(fx_add(fx_mul(lhs.x, rhs.x), fx_mul(lhs.y, rhs.y)), fx_mul(lhs.z, rhs.z))
    }

    pub fn cross(lhs: Self, rhs: Self) -> (r: Self)
        ensures
            r == Self::cross_spec(lhs, rhs),
    {
        Vec3 {
            x: fx_sub(fx_mul(lhs.y, rhs.z), fx_mul(lhs.z, rhs.y)),
            y: fx_sub(fx_mul(lhs.z, rhs.x), fx_mul(lhs.x, rhs.z)),
            z: fx_sub(fx_mul(lhs.x, rhs.y), fx_mul(lhs.y, rhs.x)),
        }
    }

    /// A vector's squared length is never negative.
    pub proof fn lemma_dot_self_nonneg(a: Self)
        ensures
            Self::dot_spec(a, a) >= 0,
    {
        lemma_fx_square_nonneg(a.x as int);
        lemma_fx_square_nonneg(a.y as int);
        lemma_fx_square_nonneg(a.z as int);
    }

    /// Negating one argument negates the dot product.
    pub proof fn lemma_dot_neg_left(a: Self, b: Self)
        requires
            Self::bounded(a),
        ensures
            Self::dot_spec(Self::neg_spec(a), b) == -Self::dot_spec(a, b),
    {
        let na = Self::neg_spec(a);
        assert(na.x as int == -(a.x as int));
        assert(na.y as int == -(a.y as int));
        assert(na.z as int == -(a.z as int));
        lemma_fx_mul_neg_left(a.x as int, b.x as int);
        lemma_fx_mul_neg_left(a.y as int, b.y as int);
        lemma_fx_mul_neg_left(a.z as int, b.z as int);
        let mx = fx_mul_spec(a.x as int, b.x as int);
        let my = fx_mul_spec(a.y as int, b.y as int);
        let mz = fx_mul_spec(a.z as int, b.z as int);
        lemma_fx_add_neg(mx, my);
        lemma_fx_add_neg(fx_add_spec(mx, my), mz);
    }

    pub fn length(lhs: Self) -> (r: i64)
        ensures
            r as int == Self::length_spec(lhs),
            r >= 0,
    {
        proof {
            Self::lemma_dot_self_nonneg(lhs);
        }
        fx_sqrt(Vec3::dot(lhs, lhs))
    }

    /// Divide by the length; a zero-length vector is returned unchanged
    /// (the renderer's substitute for an undefined direction).
    pub fn normalize(lhs: Self) -> (r: Self)
        ensures
            r == Self::normalize_spec(lhs),
    {
        let l = Vec3::length(lhs);
        if l == 0 {
            lhs
        } else {
            Vec3 {
                x: fx_div(lhs.x, l),
                y: fx_div(lhs.y, l),
                z: fx_div(lhs.z, l),
            }
        }
    }

    /// True when some component is exactly zero, the fixed-point analogue of
    /// a component below the floating-point epsilon.
    pub fn near_zero(self) -> (r: bool)
        ensures
            r == (self.x == 0 || self.y == 0 || self.z == 0),
    {
        self.x == 0 || self.y == 0 || self.z == 0
    }

    pub fn reflect(lhs: Self, rhs: Self) -> (r: Self)
        ensures
            r == Self::reflect_spec(lhs, rhs),
    {
        let d = Vec3::dot(lhs, rhs);
        lhs.sub(rhs.scale(d).scale(2 * FX_ONE))
    }

    /// cos of the angle between `-lhs` and `n`, capped at one.
    pub open spec fn refract_cos_spec(lhs: Self, n: Self) -> int {
        let c = Self::dot_spec(n, Self::neg_spec(lhs));
        if c > FX_ONE { FX_ONE as int } else { c }
    }

    pub open spec fn refract_spec(lhs: Self, n: Self, eta: int) -> Vec3 {
        let cos_theta = Self::refract_cos_spec(lhs, n);
        let r_out_perp = Self::scale_spec(Self::add_spec(lhs, Self::scale_spec(n, cos_theta)), eta);
        let k0 = fx_sub_spec(FX_ONE as int, Self::dot_spec(r_out_perp, r_out_perp));
        let k = if k0 < 0 { fx_neg_spec(k0) } else { k0 };
        let r_out_parallel = Self::scale_spec(n, fx_neg_spec(fx_sqrt_spec(k)));
        Self::add_spec(r_out_perp, r_out_parallel)
    }

    /// Snell refraction of the unit direction `lhs` about the normal `n`.
    pub fn refract(lhs: Self, n: Self, etai_over_etat: i64) -> (r: Self)
        ensures
            r == Self::refract_spec(lhs, n, etai_over_etat as int),
    {
        let mut cos_theta = Vec3::dot(n, lhs.neg());
        if cos_theta > FX_ONE {
            cos_theta = FX_ONE;
        }
        let r_out_perp = lhs.add(n.scale(cos_theta)).scale(etai_over_etat);
        let mut k = fx_sub(FX_ONE, Vec3::dot(r_out_perp, r_out_perp));
        if k < 0 {
            k = fx_neg(k);
        }
        let r_out_parallel = n.scale(fx_neg(fx_sqrt(k)));
        r_out_perp.add(r_out_parallel)
    }

    /// Componentwise minimum.
    pub fn min(a: Self, b: Self) -> (r: Self)
        ensures
            r.x == if a.x < b.x { a.x } else { b.x },
            r.y == if a.y < b.y { a.y } else { b.y },
            r.z == if a.z < b.z { a.z } else { b.z },
    {
        Vec3 {
            x: if a.x < b.x { a.x } else { b.x },
            y: if a.y < b.y { a.y } else { b.y },
            z: if a.z < b.z { a.z } else { b.z },
        }
    }

    /// Componentwise maximum.
    pub fn max(a: Self, b: Self) -> (r: Self)
        ensures
            r.x == if a.x > b.x { a.x } else { b.x },
            r.y == if a.y > b.y { a.y } else { b.y },
            r.z == if a.z > b.z { a.z } else { b.z },
    {
        Vec3 {
            x: if a.x > b.x { a.x } else { b.x },
            y: if a.y > b.y { a.y } else { b.y },
            z: if a.z > b.z { a.z } else { b.z },
        }
    }

    /// A vector with uniform components in `[min, max)`.
    pub fn random(s: &mut Sampler, min: i64, max: i64) -> (r: Self)
        requires
            min < max,
        ensures
            min <= r.x < max,
            min <= r.y < max,
            min <= r.z < max,
    {
        Vec3 {
            x: s.next_in(min, max),
            y: s.next_in(min, max),
            z: s.next_in(min, max),
        }
    }

    /// Rejection-sample a point strictly inside the unit ball; after a
    /// bounded number of misses, fall back to a fixed interior point.
    pub fn random_in_unit_sphere(s: &mut Sampler) -> (r: Self)
        ensures
            Self::dot_spec(r, r) < FX_ONE,
            -FX_ONE <= r.x <= FX_ONE,
            -FX_ONE <= r.y <= FX_ONE,
            -FX_ONE <= r.z <= FX_ONE,
    {
        let mut tries: u32 = 0;
        while tries < 64
            invariant
                tries <= 64,
            decreases 64 - tries,
        {
            let v = Vec3::random(s, -FX_ONE, FX_ONE);
            if Vec3::dot(v, v) < FX_ONE {
                return v;
            }
            tries = tries + 1;
        }
        let f = Vec3 { x: 0, y: 0, z: 32768 };
        proof {
            lemma_tdiv_pos(0, 65536);
            lemma_tdiv_pos((32768 * 32768) as int, 65536);
            assert(Self::dot_spec(f, f) == 16384);
        }
        f
    }

    /// The direction a unit-vector draw yields for a given ball sample:
    /// the normalized sample, or the z axis when the sample degenerates to
    /// the zero vector.
    pub open spec fn unit_from_spec(v: Self) -> Vec3 {
        if Self::length_spec(v) == 0 {
            Vec3 { x: 0i64, y: 0i64, z: FX_ONE }
        } else {
            Self::normalize_spec(v)
        }
    }

    /// A direction of roughly unit length, sampled uniformly: the
    /// normalized image of some draw strictly inside the unit ball.
    pub fn random_unit_vector(s: &mut Sampler) -> (r: Self)
        ensures
            exists|v: Vec3|
                Self::dot_spec(v, v) < FX_ONE && r == #[trigger] Self::unit_from_spec(v),
    {
        let v = Vec3::random_in_unit_sphere(s);
        let l = Vec3::length(v);
        let r = if l == 0 {
            Vec3 { x: 0, y: 0, z: FX_ONE }
        } else {
            Vec3::normalize(v)
        };
        proof {
            assert(r == Self::unit_from_spec(v));
        }
        r
    }

    /// A point strictly inside the unit disk of the xy-plane.
    pub fn random_in_unit_disk(s: &mut Sampler) -> (r: Self)
        ensures
            Self::dot_spec(r, r) < FX_ONE,
            r.z == 0,
    {
        let mut tries: u32 = 0;
        while tries < 64
            invariant
                tries <= 64,
            decreases 64 - tries,
        {
            let p = Vec3 { x: s.next_symmetric(), y: s.next_symmetric(), z: 0 };
            if Vec3::dot(p, p) < FX_ONE {
                return p;
            }
            tries = tries + 1;
        }
        let f = Vec3 { x: 0, y: 32768, z: 0 };
        proof {
            lemma_tdiv_pos(0, 65536);
            lemma_tdiv_pos((32768 * 32768) as int, 65536);
            assert(Self::dot_spec(f, f) == 16384);
        }
        f
    }

    /// A ball sample turned to lie on the side of `normal`.
    pub fn random_in_hemisphere(s: &mut Sampler, normal: Self) -> (r: Self)
        ensures
            Self::dot_spec(r, normal) >= 0,
    {
        proof {
            assert(FX_SAT as int >= FX_ONE as int);
        }
        let ret = Vec3::random_in_unit_sphere(s);
        if Vec3::dot(ret, normal) > 0 {
            ret
        } else {
            proof {
                Self::lemma_dot_neg_left(ret, normal);
            }
            ret.neg()
        }
    }

    /// A cosine-weighted direction about +z: a uniform disk sample lifted
    /// onto the hemisphere.
    pub fn random_cosine_direction(s: &mut Sampler) -> (r: Self)
        ensures
            r.z >= 0,
    {
        let p = Vec3::random_in_unit_disk(s);
        let d = Vec3::dot(p, p);
        let z = fx_sqrt(fx_sub(FX_ONE, d));
        Vec3 { x: p.x, y: p.y, z }
    }
}

impl Vec2 {
    pub fn new(x: i64, y: i64) -> (r: Self)
        ensures
            r == (Vec2 { x, y }),
    {
        Vec2 { x, y }
    }

    pub fn newv(v: i64) -> (r: Self)
        ensures
            r == (Vec2 { x: v, y: v }),
    {
        Vec2 { x: v, y: v }
    }

    pub fn x(self) -> (r: i64)
        ensures
            r == self.x,
    {
        self.x
    }

    pub fn y(self) -> (r: i64)
        ensures
            r == self.y,
    {
        self.y
    }

    pub fn zero() -> (r: Self)
        ensures
            r == (Vec2 { x: 0i64, y: 0i64 }),
    {
        Vec2 { x: 0, y: 0 }
    }

    pub open spec fn add_spec(a: Self, b: Self) -> Vec2 {
        Vec2 {
            x: fx_add_spec(a.x as int, b.x as int) as i64,
            y: fx_add_spec(a.y as int, b.y as int) as i64,
        }
    }

    pub open spec fn scale_spec(a: Self, s: int) -> Vec2 {
        Vec2 {
            x: fx_mul_spec(a.x as int, s) as i64,
            y: fx_mul_spec(a.y as int, s) as i64,
        }
    }

    pub fn add(self, rhs: Self) -> (r: Self)
        ensures
            r == Self::add_spec(self, rhs),
    {
        Vec2 { x: fx_add(self.x, rhs.x), y: fx_add(self.y, rhs.y) }
    }

    pub fn scale(self, s: i64) -> (r: Self)
        ensures
            r == Self::scale_spec(self, s as int),
    {
        Vec2 { x: fx_mul(self.x, s), y: fx_mul(self.y, s) }
    }
}

impl Vec1 {
    pub fn new(x: i64) -> (r: Self)
        ensures
            r == (Vec1 { x }),
    {
        Vec1 { x }
    }

    pub fn newv(v: i64) -> (r: Self)
        ensures
            r == (Vec1 { x: v }),
    {
        Vec1 { x: v }
    }

    pub fn x(self) -> (r: i64)
        ensures
            r == self.x,
    {
        self.x
    }
}

} // verus!
