//! Axis-aligned bounding boxes: the slab intersection test and the box union.

use vstd::prelude::*;
use crate::fx::fx_div;
use crate::fx::fx_div_spec;
use crate::fx::fx_sub;
use crate::fx::fx_sub_spec;
use crate::fx::lemma_fx_div_antitone;
use crate::fx::lemma_fx_div_monotone;
use crate::fx::lemma_sat_monotone;
use crate::math::vec::Vec3;
use crate::ray::Ray;

verus! {

#[derive(Clone, Copy, Debug, PartialEq, Eq, Structural)]
pub struct Aabb {
    pub min: Vec3,
    pub max: Vec3,
}

/// One slab step: tighten the running parameter interval `[lo, hi]` by the
/// axis with box bounds `[minc, maxc]`, ray origin `o` and direction `d`.
/// A ray parallel to the slab (`d == 0`) keeps the interval when the origin
/// lies inside the slab and otherwise yields the canonical empty interval.
pub open spec fn axis_update(minc: int, maxc: int, o: int, d: int, lo: int, hi: int) -> (int, int) {
    if d == 0 {
        if minc <= o && o <= maxc {
            (lo, hi)
        } else {
            (1, 0)
        }
    } else {
        let t0 = fx_div_spec(fx_sub_spec(minc, o), d);
        let t1 = fx_div_spec(fx_sub_spec(maxc, o), d);
        let e = if d < 0 { t1 } else { t0 };
        let f = if d < 0 { t0 } else { t1 };
        (if e > lo { e } else { lo }, if f < hi { f } else { hi })
    }
}

impl Aabb {
    pub fn new(min: Vec3, max: Vec3) -> (r: Self)
        ensures
            r == (Aabb { min, max }),
    {
        Aabb { min, max }
    }

    pub fn min(&self) -> (r: Vec3)
        ensures
            r == self.min,
    {
        self.min
    }

    pub fn max(&self) -> (r: Vec3)
        ensures
            r == self.max,
    {
        self.max
    }

    /// Whether the slab test accepts the ray on `[t_min, t_max]`: the
    /// parameter interval that survives all three axes is nonempty.
    pub open spec fn hit_spec(self, r: Ray, t_min: int, t_max: int) -> bool {
        let ix = axis_update(
            self.min.x as int, self.max.x as int, r.orig.x as int, r.dir.x as int, t_min, t_max);
        let iy = axis_update(
            self.min.y as int, self.max.y as int, r.orig.y as int, r.dir.y as int, ix.0, ix.1);
        let iz = axis_update(
            self.min.z as int, self.max.z as int, r.orig.z as int, r.dir.z as int, iy.0, iy.1);
        iz.0 <= iz.1
    }

    /// The per-axis slab test.  Degenerate (zero) direction components take
    /// the explicit parallel branch, so the test is total and never panics.
    pub fn hit(&self, r: &Ray, t_min: i64, t_max: i64) -> (res: bool)
        ensures
            res == self.hit_spec(*r, t_min as int, t_max as int),
    {
        let mut lo = t_min;
        let mut hi = t_max;

        // x axis
        if r.dir.x == 0 {
            if r.orig.x < self.min.x || r.orig.x > self.max.x {
                proof {
                    lemma_axis_empty(
                        self.min.y as int, self.max.y as int, r.orig.y as int, r.dir.y as int,
                        1, 0);
                    let iy = axis_update(
                        self.min.y as int, self.max.y as int, r.orig.y as int, r.dir.y as int,
                        1, 0);
                    lemma_axis_empty(
                        self.min.z as int, self.max.z as int, r.orig.z as int, r.dir.z as int,
                        iy.0, iy.1);
                }
                return false;
            }
        } else {
            let t0 = fx_div(fx_sub(self.min.x, r.orig.x), r.dir.x);
            let t1 = fx_div(fx_sub(self.max.x, r.orig.x), r.dir.x);
            let (e, f) = if r.dir.x < 0 { (t1, t0) } else { (t0, t1) };
            if e > lo {
                lo = e;
            }
            if f < hi {
                hi = f;
            }
            if hi < lo {
                proof {
                    lemma_axis_empty(
                        self.min.y as int, self.max.y as int, r.orig.y as int, r.dir.y as int,
                        lo as int, hi as int);
                    let iy = axis_update(
                        self.min.y as int, self.max.y as int, r.orig.y as int, r.dir.y as int,
                        lo as int, hi as int);
                    lemma_axis_empty(
                        self.min.z as int, self.max.z as int, r.orig.z as int, r.dir.z as int,
                        iy.0, iy.1);
                }
                return false;
            }
        }

        proof {
            let ix = axis_update(
                self.min.x as int, self.max.x as int, r.orig.x as int, r.dir.x as int,
                t_min as int, t_max as int);
            assert(lo as int == ix.0);
            assert(hi as int == ix.1);
        }

        // y axis
        if r.dir.y == 0 {
            if r.orig.y < self.min.y || r.orig.y > self.max.y {
                proof {
                    lemma_axis_empty(
                        self.min.z as int, self.max.z as int, r.orig.z as int, r.dir.z as int,
                        1, 0);
                }
                return false;
            }
        } else {
            let t0 = fx_div(fx_sub(self.min.y, r.orig.y), r.dir.y);
            let t1 = fx_div(fx_sub(self.max.y, r.orig.y), r.dir.y);
            let (e, f) = if r.dir.y < 0 { (t1, t0) } else { (t0, t1) };
            if e > lo {
                lo = e;
            }
            if f < hi {
                hi = f;
            }
            if hi < lo {
                proof {
                    lemma_axis_empty(
                        self.min.z as int, self.max.z as int, r.orig.z as int, r.dir.z as int,
                        lo as int, hi as int);
                }
                return false;
            }
        }

        proof {
            let ix = axis_update(
                self.min.x as int, self.max.x as int, r.orig.x as int, r.dir.x as int,
                t_min as int, t_max as int);
            let iy = axis_update(
                self.min.y as int, self.max.y as int, r.orig.y as int, r.dir.y as int,
                ix.0, ix.1);
            assert(lo as int == iy.0);
            assert(hi as int == iy.1);
        }

        // z axis
        if r.dir.z == 0 {
            if r.orig.z < self.min.z || r.orig.z > self.max.z {
                return false;
            }
        } else {
            let t0 = fx_div(fx_sub(self.min.z, r.orig.z), r.dir.z);
            let t1 = fx_div(fx_sub(self.max.z, r.orig.z), r.dir.z);
            let (e, f) = if r.dir.z < 0 { (t1, t0) } else { (t0, t1) };
            if e > lo {
                lo = e;
            }
            if f < hi {
                hi = f;
            }
            if hi < lo {
                return false;
            }
        }

        lo <= hi
    }

    pub open spec fn surrounding_box_spec(box0: Self, box1: Self) -> Aabb {
        Aabb {
            min: Vec3 {
                x: if box0.min.x < box1.min.x { box0.min.x } else { box1.min.x },
                y: if box0.min.y < box1.min.y { box0.min.y } else { box1.min.y },
                z: if box0.min.z < box1.min.z { box0.min.z } else { box1.min.z },
            },
            max: Vec3 {
                x: if box0.max.x > box1.max.x { box0.max.x } else { box1.max.x },
                y: if box0.max.y > box1.max.y { box0.max.y } else { box1.max.y },
                z: if box0.max.z > box1.max.z { box0.max.z } else { box1.max.z },
            },
        }
    }

    /// Componentwise min of the minima and max of the maxima.
    pub fn surrounding_box(box0: &Self, box1: &Self) -> (r: Self)
        ensures
            r == Self::surrounding_box_spec(*box0, *box1),
    {
        let small = Vec3::min(box0.min, box1.min);
        let big = Vec3::max(box0.max, box1.max);
        Aabb { min: small, max: big }
    }

    /// One box contains another, componentwise.
    pub open spec fn contains_box(self, inner: Self) -> bool {
        &&& self.min.x <= inner.min.x && inner.max.x <= self.max.x
        &&& self.min.y <= inner.min.y && inner.max.y <= self.max.y
        &&& self.min.z <= inner.min.z && inner.max.z <= self.max.z
    }
}

/// An empty running interval stays empty through any slab step.
proof fn lemma_axis_empty(minc: int, maxc: int, o: int, d: int, lo: int, hi: int)
    requires
        lo > hi,
    ensures
        axis_update(minc, maxc, o, d, lo, hi).0 > axis_update(minc, maxc, o, d, lo, hi).1,
{
}

/// A slab step of an enclosing box yields an enclosing interval, provided
/// the inner step did not reject a parallel ray.
proof fn lemma_axis_contain(
    min_i: int, max_i: int, min_o: int, max_o: int, o: int, d: int,
    lo_i: int, hi_i: int, lo_o: int, hi_o: int,
)
    requires
        min_o <= min_i,
        max_i <= max_o,
        lo_o <= lo_i,
        hi_i <= hi_o,
        d == 0 ==> min_i <= o <= max_i,
    ensures
        axis_update(min_o, max_o, o, d, lo_o, hi_o).0
            <= axis_update(min_i, max_i, o, d, lo_i, hi_i).0,
        axis_update(min_i, max_i, o, d, lo_i, hi_i).1
            <= axis_update(min_o, max_o, o, d, lo_o, hi_o).1,
{
    if d != 0 {
        lemma_sat_monotone(min_o - o, min_i - o);
        lemma_sat_monotone(max_i - o, max_o - o);
        if d > 0 {
            lemma_fx_div_monotone(fx_sub_spec(min_o, o), fx_sub_spec(min_i, o), d);
            lemma_fx_div_monotone(fx_sub_spec(max_i, o), fx_sub_spec(max_o, o), d);
        } else {
            lemma_fx_div_antitone(fx_sub_spec(min_o, o), fx_sub_spec(min_i, o), d);
            lemma_fx_div_antitone(fx_sub_spec(max_i, o), fx_sub_spec(max_o, o), d);
        }
    }
}

/// A parallel ray rejected by a slab makes the whole test fail.
proof fn lemma_parallel_miss_x(b: Aabb, r: Ray, t_min: int, t_max: int)
    requires
        r.dir.x == 0,
        !(b.min.x <= r.orig.x <= b.max.x),
    ensures
        !b.hit_spec(r, t_min, t_max),
{
    let ix = axis_update(b.min.x as int, b.max.x as int, r.orig.x as int, r.dir.x as int, t_min, t_max);
    lemma_axis_empty(b.min.y as int, b.max.y as int, r.orig.y as int, r.dir.y as int, ix.0, ix.1);
    let iy = axis_update(b.min.y as int, b.max.y as int, r.orig.y as int, r.dir.y as int, ix.0, ix.1);
    lemma_axis_empty(b.min.z as int, b.max.z as int, r.orig.z as int, r.dir.z as int, iy.0, iy.1);
}

proof fn lemma_parallel_miss_y(b: Aabb, r: Ray, t_min: int, t_max: int)
    requires
        r.dir.y == 0,
        !(b.min.y <= r.orig.y <= b.max.y),
    ensures
        !b.hit_spec(r, t_min, t_max),
{
    let ix = axis_update(b.min.x as int, b.max.x as int, r.orig.x as int, r.dir.x as int, t_min, t_max);
    let iy = axis_update(b.min.y as int, b.max.y as int, r.orig.y as int, r.dir.y as int, ix.0, ix.1);
    lemma_axis_empty(b.min.z as int, b.max.z as int, r.orig.z as int, r.dir.z as int, iy.0, iy.1);
}

/// A box that contains a box hit by the ray is hit itself: growing the box
/// only widens each axis interval.
pub proof fn lemma_hit_monotone(inner: Aabb, outer: Aabb, r: Ray, t_min: int, t_max: int)
    requires
        outer.contains_box(inner),
        inner.hit_spec(r, t_min, t_max),
    ensures
        outer.hit_spec(r, t_min, t_max),
{
    if r.dir.x == 0 && !(inner.min.x <= r.orig.x <= inner.max.x) {
        lemma_parallel_miss_x(inner, r, t_min, t_max);
    } else if r.dir.y == 0 && !(inner.min.y <= r.orig.y <= inner.max.y) {
        lemma_parallel_miss_y(inner, r, t_min, t_max);
    } else if r.dir.z == 0 && !(inner.min.z <= r.orig.z <= inner.max.z) {
        // the z step yields the empty interval, so the inner test fails
        assert(!inner.hit_spec(r, t_min, t_max));
    } else {
        lemma_axis_contain(
            inner.min.x as int, inner.max.x as int, outer.min.x as int, outer.max.x as int,
            r.orig.x as int, r.dir.x as int, t_min, t_max, t_min, t_max);
        let ixi = axis_update(
            inner.min.x as int, inner.max.x as int, r.orig.x as int, r.dir.x as int, t_min, t_max);
        let ixo = axis_update(
            outer.min.x as int, outer.max.x as int, r.orig.x as int, r.dir.x as int, t_min, t_max);
        lemma_axis_contain(
            inner.min.y as int, inner.max.y as int, outer.min.y as int, outer.max.y as int,
            r.orig.y as int, r.dir.y as int, ixi.0, ixi.1, ixo.0, ixo.1);
        let iyi = axis_update(
            inner.min.y as int, inner.max.y as int, r.orig.y as int, r.dir.y as int, ixi.0, ixi.1);
        let iyo = axis_update(
            outer.min.y as int, outer.max.y as int, r.orig.y as int, r.dir.y as int, ixo.0, ixo.1);
        lemma_axis_contain(
            inner.min.z as int, inner.max.z as int, outer.min.z as int, outer.max.z as int,
            r.orig.z as int, r.dir.z as int, iyi.0, iyi.1, iyo.0, iyo.1);
    }
}

/// Widening the query interval preserves acceptance: a ray accepted on
/// `[lo, hi2]` is accepted on `[lo, hi1]` whenever `hi2 <= hi1`.
pub proof fn lemma_hit_range_monotone(b: Aabb, r: Ray, lo: int, hi1: int, hi2: int)
    requires
        hi2 <= hi1,
        b.hit_spec(r, lo, hi2),
    ensures
        b.hit_spec(r, lo, hi1),
{
    if r.dir.x == 0 && !(b.min.x <= r.orig.x <= b.max.x) {
        lemma_parallel_miss_x(b, r, lo, hi2);
    } else if r.dir.y == 0 && !(b.min.y <= r.orig.y <= b.max.y) {
        lemma_parallel_miss_y(b, r, lo, hi2);
    } else if r.dir.z == 0 && !(b.min.z <= r.orig.z <= b.max.z) {
        assert(!b.hit_spec(r, lo, hi2));
    } else {
        lemma_axis_contain(
            b.min.x as int, b.max.x as int, b.min.x as int, b.max.x as int,
            r.orig.x as int, r.dir.x as int, lo, hi2, lo, hi1);
        let ixi = axis_update(
            b.min.x as int, b.max.x as int, r.orig.x as int, r.dir.x as int, lo, hi2);
        let ixo = axis_update(
            b.min.x as int, b.max.x as int, r.orig.x as int, r.dir.x as int, lo, hi1);
        lemma_axis_contain(
            b.min.y as int, b.max.y as int, b.min.y as int, b.max.y as int,
            r.orig.y as int, r.dir.y as int, ixi.0, ixi.1, ixo.0, ixo.1);
        let iyi = axis_update(
            b.min.y as int, b.max.y as int, r.orig.y as int, r.dir.y as int, ixi.0, ixi.1);
        let iyo = axis_update(
            b.min.y as int, b.max.y as int, r.orig.y as int, r.dir.y as int, ixo.0, ixo.1);
        lemma_axis_contain(
            b.min.z as int, b.max.z as int, b.min.z as int, b.max.z as int,
            r.orig.z as int, r.dir.z as int, iyi.0, iyi.1, iyo.0, iyo.1);
    }
}

/// Containment of boxes is transitive.
pub proof fn lemma_contains_trans(a: Aabb, b: Aabb, c: Aabb)
    requires
        a.contains_box(b),
        b.contains_box(c),
    ensures
        a.contains_box(c),
{
}

/// The union of two boxes contains both, and any ray accepted on a box is
/// accepted on any surrounding box.
pub proof fn lemma_surrounding_box_contains(a: Aabb, b: Aabb, r: Ray, t_min: int, t_max: int)
    ensures
        Aabb::surrounding_box_spec(a, b).contains_box(a),
        Aabb::surrounding_box_spec(a, b).contains_box(b),
        a.hit_spec(r, t_min, t_max) ==> Aabb::surrounding_box_spec(a, b).hit_spec(r, t_min, t_max),
        b.hit_spec(r, t_min, t_max) ==> Aabb::surrounding_box_spec(a, b).hit_spec(r, t_min, t_max),
{
    let u = Aabb::surrounding_box_spec(a, b);
    if a.hit_spec(r, t_min, t_max) {
        lemma_hit_monotone(a, u, r, t_min, t_max);
    }
    if b.hit_spec(r, t_min, t_max) {
        lemma_hit_monotone(b, u, r, t_min, t_max);
    }
}

} // verus!
