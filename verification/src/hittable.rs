//! The result of a successful ray-primitive intersection, and the flat list
//! of primitives that serves as the reference for the tree traversal.

use vstd::prelude::*;
use crate::aabb::Aabb;
use crate::materials::Material;
use crate::objects::Primitive;
use crate::sampler::Sampler;
use crate::math::vec::Vec2;
use crate::math::vec::Vec3;
use crate::ray::Ray;

verus! {

/// Transient record of a hit: the point, the oriented normal, the ray
/// parameter, the surface coordinates, and the material of the surface.
/// The material is borrowed from the primitive that produced the hit.
pub struct HitRecord<'a> {
    pub p: Vec3,
    pub normal: Vec3,
    pub t: i64,
    pub uv: Vec2,
    pub front_face: bool,
    pub material: &'a Material,
}

/// Specification-level image of a hit record: the same data with the
/// material held by value, so intersection semantics can be stated without
/// borrows.
pub struct HitData {
    pub p: Vec3,
    pub normal: Vec3,
    pub t: i64,
    pub uv: Vec2,
    pub front_face: bool,
    pub material: Material,
}

/// The ghost image of an optional hit record.
pub open spec fn ghost_of(res: Option<HitRecord>) -> Option<HitData> {
    match res {
        None => None,
        Some(h) => Some(
            HitData {
                p: h.p,
                normal: h.normal,
                t: h.t,
                uv: h.uv,
                front_face: h.front_face,
                material: *h.material,
            },
        ),
    }
}

impl<'a> HitRecord<'a> {
    /// The stored normal faces against the incoming ray: it is `n` when the
    /// ray arrives from the outside and `-n` otherwise.
    pub open spec fn oriented_normal(r: Ray, n: Vec3) -> Vec3 {
        if Vec3::dot_spec(r.dir, n) < 0 {
            n
        } else {
            Vec3::neg_spec(n)
        }
    }

    pub fn new(r: &Ray, p: Vec3, t: i64, uv: Vec2, n: Vec3, material: &'a Material) -> (rec: Self)
        ensures
            rec.p == p,
            rec.t == t,
            rec.uv == uv,
            rec.front_face == (Vec3::dot_spec(r.dir, n) < 0),
            rec.normal == Self::oriented_normal(*r, n),
            rec.material == material,
    {
        let front_face = Vec3::dot(r.dir, n) < 0;
        let normal = if front_face {
            n
        } else {
            n.neg()
        };
        HitRecord { p, normal, t, uv, front_face, material }
    }

    /// Re-orient the stored normal against the given ray.
    pub fn set_face_normal(&mut self, r: &Ray, normal: Vec3)
        ensures
            final(self).p == old(self).p,
            final(self).t == old(self).t,
            final(self).uv == old(self).uv,
            final(self).front_face == old(self).front_face,
            final(self).material == old(self).material,
            final(self).normal == Self::oriented_normal(*r, normal),
    {
        let front_face = Vec3::dot(r.dir, normal) < 0;
        if front_face {
            self.normal = normal;
        } else {
            self.normal = normal.neg();
        }
    }
}

/// All primitives of a sequence are well formed.
pub open spec fn all_wf(s: Seq<Primitive>) -> bool {
    forall|i: int| 0 <= i < s.len() ==> (#[trigger] s[i]).wf()
}

/// All primitives of a sequence are deterministic.
pub open spec fn all_det(s: Seq<Primitive>) -> bool {
    forall|i: int| 0 <= i < s.len() ==> (#[trigger] s[i]).det()
}

/// The closest-so-far fold over a sequence of primitives: each member is
/// queried on the interval tightened by the best hit among the earlier
/// members.  This is the reference semantics that the tree must match.
pub open spec fn list_hit_spec(s: Seq<Primitive>, r: Ray, lo: int, hi: int) -> Option<HitData>
    decreases s.len(),
{
    if s.len() == 0 {
        None
    } else {
        let rest = list_hit_spec(s.drop_last(), r, lo, hi);
        let cur_hi = match rest {
            Some(h) => h.t as int,
            None => hi,
        };
        match s.last().hit_spec(r, lo, cur_hi) {
            Some(h2) => Some(h2),
            None => rest,
        }
    }
}

/// The union of the members' boxes, or `None` for an empty list or any
/// member without a box.
pub open spec fn list_box_spec(s: Seq<Primitive>, time0: int, time1: int) -> Option<Aabb>
    decreases s.len(),
{
    if s.len() == 0 {
        None
    } else if s.len() == 1 {
        s[0].bounding_box_spec(time0, time1)
    } else {
        match (list_box_spec(s.drop_last(), time0, time1), s.last().bounding_box_spec(time0, time1)) {
            (Some(a), Some(b)) => Some(Aabb::surrounding_box_spec(a, b)),
            _ => None,
        }
    }
}

/// A flat list of primitives: the linear-scan reference implementation of
/// the geometry contract.
pub struct HittableList {
    pub objects: Vec<Primitive>,
}

impl HittableList {
    pub fn new() -> (r: Self)
        ensures
            r.objects@.len() == 0,
    {
        HittableList { objects: Vec::new() }
    }

    pub fn push(&mut self, object: Primitive)
        ensures
            final(self).objects@ == old(self).objects@.push(object),
    {
        self.objects.push(object)
    }

    /// Closest hit over all members, by a linear scan that tightens the
    /// upper ray parameter after every hit.
    pub fn hit(&self, r: &Ray, tmin: i64, tmax: i64, s: &mut Sampler) -> (res: Option<HitRecord>)
        requires
            all_wf(self.objects@),
        ensures
            all_det(self.objects@) ==> ghost_of(res) == list_hit_spec(
                self.objects@, *r, tmin as int, tmax as int),
            res matches Some(h) ==> (*h.material).wf(),
    {
        let mut closest_so_far = tmax;
        let mut rec: Option<HitRecord> = None;
        let n = self.objects.len();
        let mut i: usize = 0;
        while i < n
            invariant
                n == self.objects@.len(),
                0 <= i <= n,
                all_wf(self.objects@),
                all_det(self.objects@) ==> {
                    &&& ghost_of(rec) == list_hit_spec(
                        self.objects@.subrange(0, i as int), *r, tmin as int, tmax as int)
                    &&& closest_so_far as int == (match ghost_of(rec) {
                        Some(h) => h.t as int,
                        None => tmax as int,
                    })
                },
                rec matches Some(h) ==> (*h.material).wf(),
            decreases n - i,
        {
            proof {
                assert(self.objects@.subrange(0, i + 1).drop_last() =~= self.objects@.subrange(
                    0, i as int));
                assert(self.objects@.subrange(0, i + 1).last() == self.objects@[i as int]);
            }
            if let Some(ret) = self.objects[i].hit(r, tmin, closest_so_far, s) {
                closest_so_far = ret.t;
                rec = Some(ret);
            }
            i = i + 1;
        }
        proof {
            assert(self.objects@.subrange(0, n as int) =~= self.objects@);
        }
        rec
    }

    /// The union of the members' boxes; `None` if the list is empty or a
    /// member is unbounded.
    pub fn bounding_box(&self, time0: i64, time1: i64) -> (res: Option<Aabb>)
        requires
            all_wf(self.objects@),
        ensures
            res == list_box_spec(self.objects@, time0 as int, time1 as int),
    {
        let n = self.objects.len();
        if n == 0 {
            return None;
        }
        let mut ret: Option<Aabb> = None;
        let mut i: usize = 0;
        while i < n
            invariant
                n == self.objects@.len(),
                n > 0,
                0 <= i <= n,
                all_wf(self.objects@),
                i == 0 ==> ret is None,
                i > 0 ==> ret == list_box_spec(
                    self.objects@.subrange(0, i as int), time0 as int, time1 as int),
                i > 0 ==> ret is Some,
            decreases n - i,
        {
            proof {
                assert(self.objects@.subrange(0, i + 1).drop_last() =~= self.objects@.subrange(
                    0, i as int));
                assert(self.objects@.subrange(0, i + 1).last() == self.objects@[i as int]);
                assert(self.objects@.subrange(0, 1)[0] == self.objects@[0]);
            }
            if let Some(cur) = self.objects[i].bounding_box(time0, time1) {
                ret = match ret {
                    None => Some(cur),
                    Some(prev) => Some(Aabb::surrounding_box(&prev, &cur)),
                };
            } else {
                proof {
                    lemma_list_box_none(self.objects@, i as int, time0 as int, time1 as int);
                }
                return None;
            }
            i = i + 1;
        }
        proof {
            assert(self.objects@.subrange(0, n as int) =~= self.objects@);
        }
        ret
    }
}

impl HittableList {
    /// The traversal-cost probe of the flat list: the closest member probe,
    /// scanned with the tightening upper parameter.
    pub fn bvh_depth(&self, r: &Ray, tmin: i64, tmax: i64, s: &mut Sampler) -> (res: Option<(
        i64,
        u32,
    )>)
        requires
            all_wf(self.objects@),
        ensures
            all_det(self.objects@) ==> res == list_depth_spec(
                self.objects@, *r, tmin as int, tmax as int),
    {
        let mut closest_so_far = tmax;
        let mut rec: Option<(i64, u32)> = None;
        let n = self.objects.len();
        let mut i: usize = 0;
        while i < n
            invariant
                n == self.objects@.len(),
                0 <= i <= n,
                all_wf(self.objects@),
                all_det(self.objects@) ==> {
                    &&& rec == list_depth_spec(
                        self.objects@.subrange(0, i as int), *r, tmin as int, tmax as int)
                    &&& closest_so_far as int == (match rec {
                        Some(h) => h.0 as int,
                        None => tmax as int,
                    })
                },
            decreases n - i,
        {
            proof {
                assert(self.objects@.subrange(0, i + 1).drop_last() =~= self.objects@.subrange(
                    0, i as int));
                assert(self.objects@.subrange(0, i + 1).last() == self.objects@[i as int]);
            }
            if let Some(ret) = self.objects[i].bvh_depth(r, tmin, closest_so_far, s) {
                closest_so_far = ret.0;
                rec = Some(ret);
            }
            i = i + 1;
        }
        proof {
            assert(self.objects@.subrange(0, n as int) =~= self.objects@);
        }
        rec
    }
}

/// The depth-probe fold over a sequence of primitives, mirroring the
/// closest-hit scan.
pub open spec fn list_depth_spec(s: Seq<Primitive>, r: Ray, lo: int, hi: int) -> Option<(i64, u32)>
    decreases s.len(),
{
    if s.len() == 0 {
        None
    } else {
        let rest = list_depth_spec(s.drop_last(), r, lo, hi);
        let cur_hi = match rest {
            Some(h) => h.0 as int,
            None => hi,
        };
        match s.last().bvh_depth_spec(r, lo, cur_hi) {
            Some(h2) => Some(h2),
            None => rest,
        }
    }
}

/// A member without a box makes the whole union undefined.
proof fn lemma_list_box_none(s: Seq<Primitive>, i: int, time0: int, time1: int)
    requires
        0 <= i < s.len(),
        s[i].bounding_box_spec(time0, time1) is None,
    ensures
        list_box_spec(s, time0, time1) is None,
    decreases s.len(),
{
    if s.len() > 1 {
        if i == s.len() - 1 {
        } else {
            lemma_list_box_none(s.drop_last(), i, time0, time1);
        }
    }
}

} // verus!
