//! Rays: an origin, a direction and the time tag used by moving geometry.

use vstd::prelude::*;
use crate::math::vec::Vec3;

verus! {

#[derive(Clone, Copy, Debug, PartialEq, Eq, Structural)]
pub struct Ray {
    pub orig: Vec3,
    pub dir: Vec3,
    pub tm: i64,
}

impl Ray {
    pub fn new(orig: Vec3, dir: Vec3) -> (r: Self)
        ensures
            r == (Ray { orig, dir, tm: 0i64 }),
    {
        Ray::with_time(orig, dir, 0)
    }

    pub fn with_time(orig: Vec3, dir: Vec3, tm: i64) -> (r: Self)
        ensures
            r == (Ray { orig, dir, tm }),
    {
        Ray { orig, dir, tm }
    }

    /// The point `orig + dir * t` reached at parameter `t`.
    pub open spec fn at_spec(self, t: int) -> Vec3 {
        Vec3::add_spec(self.orig, Vec3::scale_spec(self.dir, t))
    }

    pub fn at(&self, t: i64) -> (r: Vec3)
        ensures
            r == self.at_spec(t as int),
    {
        self.orig.add(self.dir.scale(t))
    }

    pub fn orig(&self) -> (r: Vec3)
        ensures
            r == self.orig,
    {
        self.orig
    }

    pub fn dir(&self) -> (r: Vec3)
        ensures
            r == self.dir,
    {
        self.dir
    }

    pub fn time(&self) -> (r: i64)
        ensures
            r == self.tm,
    {
        self.tm
    }
}

} // verus!
