//! Orthonormal basis aligned to a surface normal.

use vstd::prelude::*;
use crate::math::vec::Vec3;

verus! {

#[derive(Clone, Copy, Debug, PartialEq, Eq, Structural)]
pub struct Onb {
    pub u: Vec3,
    pub v: Vec3,
    pub w: Vec3,
}

/// Threshold 0.9 used to pick a helper axis not parallel to `w`.
pub const FX_NINE_TENTHS: i64 = 58982;

impl Onb {
    pub open spec fn from_w_spec(n: Vec3) -> Onb {
        let aw = Vec3::normalize_spec(n);
        let a = if aw.x > FX_NINE_TENTHS || aw.x < -FX_NINE_TENTHS {
            Vec3 { x: 0i64, y: crate::fx::FX_ONE, z: 0i64 }
        } else {
            Vec3 { x: crate::fx::FX_ONE, y: 0i64, z: 0i64 }
        };
        let av = Vec3::normalize_spec(Vec3::cross_spec(aw, a));
        let au = Vec3::cross_spec(aw, av);
        Onb { u: au, v: av, w: aw }
    }

    /// Build the frame whose third axis follows `n`.
    pub fn from_w(n: Vec3) -> (r: Self)
        ensures
            r == Self::from_w_spec(n),
    {
        let aw = Vec3::normalize(n);
        let a = if aw.x > FX_NINE_TENTHS || aw.x < -FX_NINE_TENTHS {
            Vec3::new(0, crate::fx::FX_ONE, 0)
        } else {
            Vec3::new(crate::fx::FX_ONE, 0, 0)
        };
        let av = Vec3::normalize(Vec3::cross(aw, a));
        let au = Vec3::cross(aw, av);
        Onb { u: au, v: av, w: aw }
    }

    /// `u*a.x + v*a.y + w*a.z`: coordinates in the local frame.
    pub open spec fn local_spec(self, a: Vec3) -> Vec3 {
        Vec3::add_spec(
            Vec3::add_spec(
                Vec3::scale_spec(self.u, a.x as int),
                Vec3::scale_spec(self.v, a.y as int),
            ),
            Vec3::scale_spec(self.w, a.z as int),
        )
    }

    pub fn local(&self, a: Vec3) -> (r: Vec3)
        ensures
            r == self.local_spec(a),
    {
        self.u.scale(a.x).add(self.v.scale(a.y)).add(self.w.scale(a.z))
    }

    pub fn u(&self) -> (r: Vec3)
        ensures
            r == self.u,
    {
        self.u
    }

    pub fn v(&self) -> (r: Vec3)
        ensures
            r == self.v,
    {
        self.v
    }

    pub fn w(&self) -> (r: Vec3)
        ensures
            r == self.w,
    {
        self.w
    }
}

} // verus!
