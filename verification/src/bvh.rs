//! The bounding volume hierarchy: a binary tree of boxes over primitives.
//!
//! Construction sorts the primitives along a randomly chosen axis and splits
//! at the median; traversal prunes a subtree whenever its cached box misses
//! the ray.  A tree node is itself a `Primitive`, so trees compose.

use vstd::prelude::*;
use crate::aabb::Aabb;
use vstd::multiset::Multiset;
use crate::hittable::all_wf;
use crate::hittable::ghost_of;
use crate::hittable::HitData;
use crate::hittable::HitRecord;
use crate::objects::Cube;
use crate::objects::Cylinder;
use crate::objects::MovingSphere;
use crate::objects::Primitive;
use crate::objects::Sphere;
use crate::ray::Ray;
use crate::sampler::Sampler;

verus! {

/// Why a tree could not be built.
#[derive(Clone, Copy, Debug, PartialEq, Eq, Structural)]
pub enum BvhError {
    /// A tree over an empty primitive list is meaningless and refused.
    EmptyList,
    /// Some primitive reported no bounding box, so it cannot be placed.
    MissingBox,
}

pub struct BvhNode {
    pub left: Option<Box<Primitive>>,
    pub right: Option<Box<Primitive>>,
    pub aabb: Aabb,
}

/// The leaf primitives gathered by a subtree, in tree order.
pub open spec fn node_leaves(n: BvhNode) -> Seq<Primitive>
    decreases n,
{
    let l = match n.left {
        Some(p) => prim_leaves(*p),
        None => Seq::empty(),
    };
    let r = match n.right {
        Some(p) => prim_leaves(*p),
        None => Seq::empty(),
    };
    l + r
}

/// The leaves a primitive stands for: itself, unless it is a tree.
pub open spec fn prim_leaves(p: Primitive) -> Seq<Primitive>
    decreases p,
{
    match p {
        Primitive::Bvh(n) => node_leaves(*n),
        _ => seq![p],
    }
}

/// The closer of two optional hits; on an exact tie the second wins, as in
/// the linear scan, where a later hit at the same parameter replaces an
/// earlier one.
pub open spec fn closer_hit(lres: Option<HitData>, rres: Option<HitData>) -> Option<HitData> {
    match (lres, rres) {
        (None, None) => None,
        (Some(lh), None) => Some(lh),
        (None, Some(rh)) => Some(rh),
        (Some(lh), Some(rh)) => if lh.t < rh.t {
            Some(lh)
        } else {
            Some(rh)
        },
    }
}

/// The hit of an optional child slot.
pub open spec fn child_res(c: Option<Box<Primitive>>, r: Ray, lo: int, hi: int) -> Option<HitData>
    decreases c,
{
    match c {
        Some(p) => p.hit_spec(r, lo, hi),
        None => None,
    }
}

/// The traversal semantics of a deterministic tree: prune on the box test,
/// otherwise query both children on the same interval and keep the closer
/// hit.
pub open spec fn bvh_hit_spec(n: BvhNode, r: Ray, lo: int, hi: int) -> Option<HitData>
    decreases n,
{
    if !n.aabb.hit_spec(r, lo, hi) {
        None
    } else {
        closer_hit(child_res(n.left, r, lo, hi), child_res(n.right, r, lo, hi))
    }
}

/// The sort key of the tree builder: the minimum coordinate of the
/// primitive's box along the chosen axis, measured at time zero.
pub open spec fn box_key_spec(p: Primitive, axis: int) -> int {
    match p.bounding_box_spec(0, 0) {
        Some(ab) => if axis == 0 {
            ab.min.x as int
        } else if axis == 1 {
            ab.min.y as int
        } else {
            ab.min.z as int
        },
        None => 0,
    }
}

fn box_key(p: &Primitive, axis: u32) -> (r: i64)
    requires
        p.wf(),
    ensures
        r as int == box_key_spec(*p, axis as int),
{
    match p.bounding_box(0, 0) {
        Some(ab) => {
            if axis == 0 {
                ab.min.x
            } else if axis == 1 {
                ab.min.y
            } else {
                ab.min.z
            }
        },
        None => 0,
    }
}

/// No member of the sequence is itself a tree: the builder's leaves
/// contract is stated for such inputs.
pub open spec fn no_tree(s: Seq<Primitive>) -> bool {
    forall|i: int| 0 <= i < s.len() ==> !((#[trigger] s[i]) is Bvh)
}

/// A bag-equal sequence of boxed primitives is boxed.
proof fn lemma_all_boxed_from_multiset(s1: Seq<Primitive>, s2: Seq<Primitive>, t0: int, t1: int)
    requires
        s1.to_multiset() == s2.to_multiset(),
        all_boxed(s1, t0, t1),
    ensures
        all_boxed(s2, t0, t1),
{
    broadcast use vstd::seq_lib::group_to_multiset_ensures;

    assert forall|i: int| 0 <= i < s2.len() implies (#[trigger] s2[i]).bounding_box_spec(t0, t1)
        is Some by {
        assert(s2.contains(s2[i]));
        assert(s2.to_multiset().count(s2[i]) > 0);
        assert(s1.contains(s2[i]));
        let j = choose|j: int| 0 <= j < s1.len() && s1[j] == s2[i];
        assert(s1[j].bounding_box_spec(t0, t1) is Some);
    }
}

/// A bag-equal sequence of tree-free primitives is tree-free.
proof fn lemma_no_tree_from_multiset(s1: Seq<Primitive>, s2: Seq<Primitive>)
    requires
        s1.to_multiset() == s2.to_multiset(),
        no_tree(s1),
    ensures
        no_tree(s2),
{
    broadcast use vstd::seq_lib::group_to_multiset_ensures;

    assert forall|i: int| 0 <= i < s2.len() implies !((#[trigger] s2[i]) is Bvh) by {
        assert(s2.contains(s2[i]));
        assert(s2.to_multiset().count(s2[i]) > 0);
        assert(s1.contains(s2[i]));
        let j = choose|j: int| 0 <= j < s1.len() && s1[j] == s2[i];
        assert(!(s1[j] is Bvh));
    }
}

/// Every primitive of the sequence has a box over the given interval.
pub open spec fn all_boxed(s: Seq<Primitive>, time0: int, time1: int) -> bool {
    forall|i: int| 0 <= i < s.len() ==> (#[trigger] s[i]).bounding_box_spec(time0, time1) is Some
}

/// Concatenation adds the element bags.
proof fn lemma_to_multiset_concat<A>(a: Seq<A>, b: Seq<A>)
    ensures
        (a + b).to_multiset() == a.to_multiset().add(b.to_multiset()),
    decreases b.len(),
{
    broadcast use vstd::seq_lib::group_to_multiset_ensures;

    if b.len() == 0 {
        assert(a + b =~= a);
        assert(b.to_multiset() =~= Multiset::<A>::empty());
        assert(a.to_multiset().add(b.to_multiset()) =~= a.to_multiset());
    } else {
        lemma_to_multiset_concat(a, b.drop_last());
        assert(a + b =~= (a + b.drop_last()).push(b.last()));
        assert(b =~= b.drop_last().push(b.last()));
        assert((a + b).to_multiset() =~= a.to_multiset().add(b.to_multiset()));
    }
}

/// Sort the primitives by their box key along `axis`, by repeatedly moving
/// the smallest remaining key to the output.  The element bag is unchanged.
fn sort_by_key(objects: Vec<Primitive>, axis: u32) -> (res: Vec<Primitive>)
    requires
        all_wf(objects@),
    ensures
        res@.to_multiset() == objects@.to_multiset(),
        res@.len() == objects@.len(),
        all_wf(res@),
        forall|i: int, j: int| 0 <= i < j < res@.len() ==> box_key_spec(res@[i], axis as int)
            <= box_key_spec(res@[j], axis as int),
{
    broadcast use vstd::seq_lib::group_to_multiset_ensures;

    let mut rest = objects;
    let mut out: Vec<Primitive> = Vec::new();
    let ghost orig = rest@;
    while rest.len() > 0
        invariant
            all_wf(rest@),
            all_wf(out@),
            out@.to_multiset().add(rest@.to_multiset()) == orig.to_multiset(),
            out@.len() + rest@.len() == orig.len(),
            forall|i: int, j: int| 0 <= i < j < out@.len() ==> box_key_spec(out@[i], axis as int)
                <= box_key_spec(out@[j], axis as int),
            forall|i: int, j: int| #![trigger out@[i], rest@[j]]
                0 <= i < out@.len() && 0 <= j < rest@.len() ==> box_key_spec(out@[i], axis as int)
                    <= box_key_spec(rest@[j], axis as int),
        decreases rest.len(),
    {
        // find the index of the smallest key
        let mut min_idx: usize = 0;
        let mut k: usize = 1;
        while k < rest.len()
            invariant
                rest@.len() > 0,
                all_wf(rest@),
                0 <= min_idx < rest@.len(),
                min_idx < k,
                0 < k <= rest@.len(),
                forall|j: int| 0 <= j < k ==> box_key_spec(rest@[min_idx as int], axis as int)
                    <= box_key_spec(#[trigger] rest@[j], axis as int),
            decreases rest.len() - k,
        {
            if box_key(&rest[k], axis) < box_key(&rest[min_idx], axis) {
                min_idx = k;
            }
            k = k + 1;
        }
        let ghost out_before = out@;
        let ghost rest_before = rest@;
        let picked = rest.remove(min_idx);
        out.push(picked);
        proof {
            broadcast use vstd::seq_lib::group_to_multiset_ensures;

            out_before.to_multiset_ensures();
            rest_before.to_multiset_ensures();
            assert(out@ == out_before.push(picked));
            assert(out@.to_multiset() == out_before.to_multiset().insert(picked));
            assert(rest@ == rest_before.remove(min_idx as int));
            assert(rest@.to_multiset() == rest_before.to_multiset().remove(picked));
            assert(rest_before.contains(picked));
            assert(rest_before.to_multiset().count(picked) > 0);
            assert(out@.to_multiset().add(rest@.to_multiset()) =~= orig.to_multiset());
        }
    }
    proof {
        rest@.to_multiset_ensures();
        assert(rest@.to_multiset() =~= Multiset::<Primitive>::empty());
        assert(out@.to_multiset() =~= orig.to_multiset());
    }
    out
}


/// How a hit answer may change when the upper end of the query interval
/// shrinks to `hi2`: a hit within the smaller interval is kept exactly, a
/// hit beyond it disappears, and a miss stays a miss.
pub open spec fn shrink_consistent(big: Option<HitData>, small: Option<HitData>, hi2: int) -> bool {
    match big {
        None => small is None,
        Some(h) => if h.t <= hi2 {
            small == Some(h)
        } else {
            small is None
        },
    }
}

/// The primitive answers every query with the closest of a fixed candidate
/// set: shrinking the interval behaves as `shrink_consistent` says.  This
/// holds of the leaf shapes, whose candidates are the roots of their
/// surface equations.
pub open spec fn shrink_ok(p: Primitive, r: Ray) -> bool {
    forall|lo: int, hi1: int, hi2: int|
        i64::MIN <= lo <= hi2 <= hi1 <= i64::MAX ==> shrink_consistent(
            #[trigger] p.hit_spec(r, lo, hi1),
            #[trigger] p.hit_spec(r, lo, hi2),
            hi2,
        )
}

/// Reported parameters lie in the queried interval.
pub open spec fn range_ok(p: Primitive, r: Ray) -> bool {
    forall|lo: int, hi: int|
        i64::MIN <= lo && hi <= i64::MAX ==> match #[trigger] p.hit_spec(r, lo, hi) {
            Some(h) => lo <= h.t <= hi,
            None => true,
        }
}

/// The hypotheses of the flattening law, over the whole tree: every box
/// prunes soundly (a subtree whose box rejects the ray reports no hit on
/// that interval), and every leaf answers with closest-candidate
/// semantics.  The box clause is where the fixed-point rounding of the
/// slab test enters: over the reals it holds of every tree whose boxes
/// enclose their leaves; in fixed-point arithmetic a hit grazing a box
/// face can be lost by one rounding step, and such rays are exactly the
/// ones this hypothesis excludes.
pub open spec fn tree_hyp(n: BvhNode, r: Ray) -> bool
    decreases n,
{
    &&& (forall|lo: int, hi: int|
        i64::MIN <= lo && hi <= i64::MAX && !n.aabb.hit_spec(r, lo, hi) ==> (
        #[trigger] child_res(n.left, r, lo, hi)) is None
            && child_res(n.right, r, lo, hi) is None)
    &&& child_hyp(n.left, r)
    &&& child_hyp(n.right, r)
}

pub open spec fn child_hyp(c: Option<Box<Primitive>>, r: Ray) -> bool
    decreases c,
{
    match c {
        None => true,
        Some(p) => prim_hyp(*p, r),
    }
}

pub open spec fn prim_hyp(p: Primitive, r: Ray) -> bool
    decreases p,
{
    match p {
        Primitive::Bvh(m) => tree_hyp(*m, r),
        _ => shrink_ok(p, r) && range_ok(p, r),
    }
}

/// Shrinking distributes over the closer-of-two combination.
proof fn lemma_closer_shrink(
    l1: Option<HitData>, l2: Option<HitData>, r1: Option<HitData>, r2: Option<HitData>, hi2: int,
)
    requires
        shrink_consistent(l1, l2, hi2),
        shrink_consistent(r1, r2, hi2),
    ensures
        shrink_consistent(closer_hit(l1, r1), closer_hit(l2, r2), hi2),
{
}

/// A child slot of a tree under the hypotheses answers with
/// closest-candidate semantics: shrink consistency and in-range results.
#[verifier::rlimit(100)]
#[verifier::spinoff_prover]
proof fn lemma_child_props(c: Option<Box<Primitive>>, r: Ray, lo: int, hi1: int, hi2: int)
    requires
        child_hyp(c, r),
        match c {
            Some(p) => (*p).wf() && (*p).det(),
            None => true,
        },
        i64::MIN <= lo <= hi2 <= hi1 <= i64::MAX,
    ensures
        shrink_consistent(child_res(c, r, lo, hi1), child_res(c, r, lo, hi2), hi2),
        match child_res(c, r, lo, hi1) {
            Some(h) => lo <= h.t <= hi1,
            None => true,
        },
    decreases c,
{
    match c {
        None => {
            assert(child_res(c, r, lo, hi1) is None);
            assert(child_res(c, r, lo, hi2) is None);
        },
        Some(p) => {
            assert(child_res(c, r, lo, hi1) == (*p).hit_spec(r, lo, hi1));
            assert(child_res(c, r, lo, hi2) == (*p).hit_spec(r, lo, hi2));
            match *p {
                Primitive::Bvh(m) => {
                    assert(prim_hyp(*p, r));
                    assert(tree_hyp(*m, r));
                    proof_bvh_arm_spec(*p, *m, r, lo, hi1);
                    proof_bvh_arm_spec(*p, *m, r, lo, hi2);
                    lemma_tree_props(*m, r, lo, hi1, hi2);
                },
                _ => {
                    assert(shrink_ok(*p, r) && range_ok(*p, r));
                },
            }
        },
    }
}

/// The tree arm of the opaque intersection semantics.
proof fn proof_bvh_arm_spec(p: Primitive, m: BvhNode, r: Ray, lo: int, hi: int)
    requires
        p == Primitive::Bvh(Box::new(m)),
    ensures
        p.hit_spec(r, lo, hi) == bvh_hit_spec(m, r, lo, hi),
{
    reveal(Primitive::hit_spec);
}

/// A tree under the hypotheses behaves like a closest-candidate primitive.
#[verifier::rlimit(100)]
#[verifier::spinoff_prover]
proof fn lemma_tree_props(n: BvhNode, r: Ray, lo: int, hi1: int, hi2: int)
    requires
        n.wf(),
        n.det(),
        tree_hyp(n, r),
        i64::MIN <= lo <= hi2 <= hi1 <= i64::MAX,
    ensures
        shrink_consistent(bvh_hit_spec(n, r, lo, hi1), bvh_hit_spec(n, r, lo, hi2), hi2),
        match bvh_hit_spec(n, r, lo, hi1) {
            Some(h) => lo <= h.t <= hi1,
            None => true,
        },
    decreases n,
{
    lemma_child_props(n.left, r, lo, hi1, hi2);
    lemma_child_props(n.right, r, lo, hi1, hi2);
    if !n.aabb.hit_spec(r, lo, hi1) {
        // a hit of the smaller interval would be a hit of the larger
        if n.aabb.hit_spec(r, lo, hi2) {
            crate::aabb::lemma_hit_range_monotone(n.aabb, r, lo, hi1, hi2);
        }
    } else if !n.aabb.hit_spec(r, lo, hi2) {
        // the box rejects the smaller interval: no child reports a hit
        // there, so any hit of the larger interval lies beyond hi2
        assert(child_res(n.left, r, lo, hi2) is None);
        assert(child_res(n.right, r, lo, hi2) is None);
    } else {
        lemma_closer_shrink(
            child_res(n.left, r, lo, hi1),
            child_res(n.left, r, lo, hi2),
            child_res(n.right, r, lo, hi1),
            child_res(n.right, r, lo, hi2),
            hi2,
        );
    }
}

/// The leaves a child slot stands for.
pub open spec fn child_leaves(c: Option<Box<Primitive>>) -> Seq<Primitive>
    decreases c,
{
    match c {
        Some(p) => prim_leaves(*p),
        None => Seq::empty(),
    }
}

/// The linear fold over a concatenation: scan the first part, then the
/// second on the interval tightened by the first part's best hit.
#[verifier::rlimit(100)]
#[verifier::spinoff_prover]
proof fn lemma_fold_concat(s1: Seq<Primitive>, s2: Seq<Primitive>, r: Ray, lo: int, hi: int)
    ensures
        crate::hittable::list_hit_spec(s1 + s2, r, lo, hi) == ({
            let r1 = crate::hittable::list_hit_spec(s1, r, lo, hi);
            let h1 = match r1 {
                Some(h) => h.t as int,
                None => hi,
            };
            match crate::hittable::list_hit_spec(s2, r, lo, h1) {
                Some(h2) => Some(h2),
                None => r1,
            }
        }),
    decreases s2.len(),
{
    if s2.len() == 0 {
        assert(s1 + s2 =~= s1);
        assert(s2 =~= Seq::<Primitive>::empty());
        assert(crate::hittable::list_hit_spec(s2, r, lo, ({
            let r1 = crate::hittable::list_hit_spec(s1, r, lo, hi);
            match r1 {
                Some(h) => h.t as int,
                None => hi,
            }
        })) is None);
    } else {
        lemma_fold_concat(s1, s2.drop_last(), r, lo, hi);
        assert((s1 + s2).drop_last() =~= s1 + s2.drop_last());
        assert((s1 + s2).last() == s2.last());
        assert((s1 + s2).len() > 0);
    }
}

/// The fold over a single primitive is that primitive's own answer.
#[verifier::rlimit(100)]
#[verifier::spinoff_prover]
proof fn lemma_fold_single(p: Primitive, r: Ray, lo: int, hi: int)
    ensures
        crate::hittable::list_hit_spec(seq![p], r, lo, hi) == p.hit_spec(r, lo, hi),
{
    assert(seq![p].drop_last() =~= Seq::<Primitive>::empty());
    assert(seq![p].last() == p);
    assert(crate::hittable::list_hit_spec(Seq::<Primitive>::empty(), r, lo, hi) is None);
    assert(crate::hittable::list_hit_spec(seq![p].drop_last(), r, lo, hi) is None);
}

/// A child slot's answer equals the linear scan of its leaves.
#[verifier::rlimit(100)]
#[verifier::spinoff_prover]
proof fn lemma_child_equiv(c: Option<Box<Primitive>>, r: Ray, lo: int, hi: int)
    requires
        i64::MIN <= lo <= hi <= i64::MAX,
        child_hyp(c, r),
        match c {
            Some(p) => (*p).wf() && (*p).det(),
            None => true,
        },
    ensures
        child_res(c, r, lo, hi) == crate::hittable::list_hit_spec(child_leaves(c), r, lo, hi),
    decreases c,
{
    match c {
        None => {},
        Some(p) => {
            assert(child_res(c, r, lo, hi) == (*p).hit_spec(r, lo, hi));
            match *p {
                Primitive::Bvh(m) => {
                    proof_bvh_arm_spec(*p, *m, r, lo, hi);
                    assert(child_leaves(c) == node_leaves(*m));
                    lemma_bvh_matches_list(*m, r, lo, hi);
                },
                _ => {
                    lemma_fold_single(*p, r, lo, hi);
                    assert(child_leaves(c) =~= seq![*p]);
                },
            }
        },
    }
}

/// The flattening law: a tree traversal returns exactly what the linear
/// closest-hit scan over its leaves returns, on the same ray and interval.
/// The hypotheses are sound pruning of every box and closest-candidate
/// behaviour of every leaf, which hold up to one fixed-point rounding step
/// of the slab test and of the leaf root selection.
#[verifier::rlimit(100)]
#[verifier::spinoff_prover]
pub proof fn lemma_bvh_matches_list(n: BvhNode, r: Ray, lo: int, hi: int)
    requires
        n.wf(),
        n.det(),
        tree_hyp(n, r),
        i64::MIN <= lo <= hi <= i64::MAX,
    ensures
        bvh_hit_spec(n, r, lo, hi) == crate::hittable::list_hit_spec(node_leaves(n), r, lo, hi),
    decreases n,
{
    lemma_fold_concat(child_leaves(n.left), child_leaves(n.right), r, lo, hi);
    assert(node_leaves(n) == child_leaves(n.left) + child_leaves(n.right));
    if !n.aabb.hit_spec(r, lo, hi) {
        // both children miss, so both partial folds miss
        lemma_child_equiv(n.left, r, lo, hi);
        assert(child_res(n.left, r, lo, hi) is None);
        lemma_child_equiv(n.right, r, lo, hi);
        assert(child_res(n.right, r, lo, hi) is None);
    } else {
        lemma_child_equiv(n.left, r, lo, hi);
        let ra = child_res(n.left, r, lo, hi);
        let h1 = match ra {
            Some(h) => h.t as int,
            None => hi,
        };
        lemma_child_props(n.left, r, lo, hi, hi);
        assert(lo <= h1 <= hi);
        lemma_child_equiv(n.right, r, lo, h1);
        lemma_child_props(n.right, r, lo, hi, h1);
    }
}


/// Rectangles report their single slab candidate: closest-candidate
/// behaviour holds of all three orientations.
pub proof fn lemma_rect_candidate_ok(p: Primitive, r: Ray)
    requires
        p is XYRect || p is XZRect || p is YZRect,
    ensures
        shrink_ok(p, r),
        range_ok(p, r),
{
    assert forall|lo: int, hi: int| i64::MIN <= lo && hi <= i64::MAX implies match
        #[trigger] p.hit_spec(r, lo, hi) {
        Some(h) => lo <= h.t <= hi,
        None => true,
    } by {
        reveal(Primitive::hit_spec);
    }
    assert forall|lo: int, hi1: int, hi2: int| i64::MIN <= lo <= hi2 <= hi1 <= i64::MAX
        implies shrink_consistent(
        #[trigger] p.hit_spec(r, lo, hi1),
        #[trigger] p.hit_spec(r, lo, hi2),
        hi2,
    ) by {
        reveal(Primitive::hit_spec);
    }
}

/// Triangles report their single barycentric candidate.
pub proof fn lemma_triangle_candidate_ok(p: Primitive, r: Ray)
    requires
        p is Triangle,
    ensures
        shrink_ok(p, r),
        range_ok(p, r),
{
    assert forall|lo: int, hi: int| i64::MIN <= lo && hi <= i64::MAX implies match
        #[trigger] p.hit_spec(r, lo, hi) {
        Some(h) => lo <= h.t <= hi,
        None => true,
    } by {
        reveal(Primitive::hit_spec);
    }
    assert forall|lo: int, hi1: int, hi2: int| i64::MIN <= lo <= hi2 <= hi1 <= i64::MAX
        implies shrink_consistent(
        #[trigger] p.hit_spec(r, lo, hi1),
        #[trigger] p.hit_spec(r, lo, hi2),
        hi2,
    ) by {
        reveal(Primitive::hit_spec);
    }
}

/// The leading coefficient of the quadratic shapes is a squared length,
/// hence nonnegative.
proof fn proof_sphere_nonneg_coefficient(p: Primitive, r: Ray)
    ensures
        match p {
            Primitive::Sphere(_) => crate::math::vec::Vec3::dot_spec(r.dir, r.dir) >= 0,
            Primitive::MovingSphere(_) => crate::math::vec::Vec3::dot_spec(r.dir, r.dir) >= 0,
            Primitive::Cylinder(_) => crate::math::vec::Vec3::dot_spec(
                crate::math::vec::Vec3 { x: r.dir.x, y: 0i64, z: r.dir.z },
                crate::math::vec::Vec3 { x: r.dir.x, y: 0i64, z: r.dir.z },
            ) >= 0,
            _ => true,
        },
{
    crate::math::vec::Vec3::lemma_dot_self_nonneg(r.dir);
    crate::math::vec::Vec3::lemma_dot_self_nonneg(
        crate::math::vec::Vec3 { x: r.dir.x, y: 0i64, z: r.dir.z });
}

/// Spheres (and the moving and cylindrical variants, whose leading
/// coefficient is also a squared length) take the smaller root first:
/// closest-candidate behaviour holds.
/// Shape-level shrink behaviour of a single-candidate quadratic shape.
proof fn lemma_sphere_shape_shrink(sp: Sphere, r: Ray, lo: int, hi1: int, hi2: int)
    requires
        i64::MIN <= lo <= hi2 <= hi1 <= i64::MAX,
    ensures
        shrink_consistent(sp.hit_spec(r, lo, hi1), sp.hit_spec(r, lo, hi2), hi2),
{
    let oc = crate::math::vec::Vec3::sub_spec(r.orig, sp.center);
    let a = crate::math::vec::Vec3::dot_spec(r.dir, r.dir);
    let hb = crate::math::vec::Vec3::dot_spec(oc, r.dir);
    let cc = crate::fx::fx_sub_spec(
        crate::math::vec::Vec3::dot_spec(oc, oc),
        crate::fx::fx_mul_spec(sp.radius as int, sp.radius as int),
    );
    crate::math::vec::Vec3::lemma_dot_self_nonneg(r.dir);
    crate::objects::lemma_quad_first_root_shrink(a, hb, cc, lo, hi1, hi2);
}

proof fn lemma_moving_sphere_shape_shrink(sp: MovingSphere, r: Ray, lo: int, hi1: int, hi2: int)
    requires
        i64::MIN <= lo <= hi2 <= hi1 <= i64::MAX,
    ensures
        shrink_consistent(sp.hit_spec(r, lo, hi1), sp.hit_spec(r, lo, hi2), hi2),
{
    let center = sp.center_spec(r.tm as int);
    let oc = crate::math::vec::Vec3::sub_spec(r.orig, center);
    let a = crate::math::vec::Vec3::dot_spec(r.dir, r.dir);
    let hb = crate::math::vec::Vec3::dot_spec(oc, r.dir);
    let cc = crate::fx::fx_sub_spec(
        crate::math::vec::Vec3::dot_spec(oc, oc),
        crate::fx::fx_mul_spec(sp.radius as int, sp.radius as int),
    );
    crate::math::vec::Vec3::lemma_dot_self_nonneg(r.dir);
    crate::objects::lemma_quad_first_root_shrink(a, hb, cc, lo, hi1, hi2);
}

proof fn lemma_cylinder_shape_shrink(sp: Cylinder, r: Ray, lo: int, hi1: int, hi2: int)
    requires
        i64::MIN <= lo <= hi2 <= hi1 <= i64::MAX,
    ensures
        shrink_consistent(sp.hit_spec(r, lo, hi1), sp.hit_spec(r, lo, hi2), hi2),
{
    let oc = crate::math::vec::Vec3 {
        x: crate::fx::fx_sub_spec(r.orig.x as int, sp.center.x as int) as i64,
        y: 0i64,
        z: crate::fx::fx_sub_spec(r.orig.z as int, sp.center.z as int) as i64,
    };
    let rdir = crate::math::vec::Vec3 { x: r.dir.x, y: 0i64, z: r.dir.z };
    let a = crate::math::vec::Vec3::dot_spec(rdir, rdir);
    let hb = crate::math::vec::Vec3::dot_spec(oc, rdir);
    let cc = crate::fx::fx_sub_spec(
        crate::math::vec::Vec3::dot_spec(oc, oc),
        crate::fx::fx_mul_spec(sp.radius as int, sp.radius as int),
    );
    crate::math::vec::Vec3::lemma_dot_self_nonneg(rdir);
    crate::objects::lemma_quad_first_root_shrink(a, hb, cc, lo, hi1, hi2);
}

/// Spheres (and the moving and cylindrical variants, whose leading
/// coefficient is also a squared length) take the smaller root first:
/// closest-candidate behaviour holds.
#[verifier::rlimit(100)]
#[verifier::spinoff_prover]
pub proof fn lemma_sphere_candidate_ok(p: Primitive, r: Ray)
    requires
        p is Sphere || p is MovingSphere || p is Cylinder,
    ensures
        shrink_ok(p, r),
        range_ok(p, r),
{
    assert forall|lo: int, hi: int| i64::MIN <= lo && hi <= i64::MAX implies match
        #[trigger] p.hit_spec(r, lo, hi) {
        Some(h) => lo <= h.t <= hi,
        None => true,
    } by {
        crate::objects::lemma_hit_spec_unfold(p, r, lo, hi);
    }
    assert forall|lo: int, hi1: int, hi2: int| i64::MIN <= lo <= hi2 <= hi1 <= i64::MAX
        implies shrink_consistent(
        #[trigger] p.hit_spec(r, lo, hi1),
        #[trigger] p.hit_spec(r, lo, hi2),
        hi2,
    ) by {
        crate::objects::lemma_hit_spec_unfold(p, r, lo, hi1);
        crate::objects::lemma_hit_spec_unfold(p, r, lo, hi2);
        match p {
            Primitive::Sphere(sp) => {
                lemma_sphere_shape_shrink(sp, r, lo, hi1, hi2);
            },
            Primitive::MovingSphere(sp) => {
                lemma_moving_sphere_shape_shrink(sp, r, lo, hi1, hi2);
            },
            Primitive::Cylinder(sp) => {
                lemma_cylinder_shape_shrink(sp, r, lo, hi1, hi2);
            },
            _ => {},
        }
    }
}

/// One face of the closest-face fold, under a shrunken start interval:
/// consistency of the running results is preserved.
#[verifier::rlimit(100)]
#[verifier::spinoff_prover]
proof fn lemma_cube_step_shrink(
    cb: Cube, face: int, r: Ray, lo: int, hi1: int, hi2: int,
    prev1: Option<HitData>, run1: int, prev2: Option<HitData>, run2: int,
)
    requires
        i64::MIN <= lo <= hi2 <= hi1 <= i64::MAX,
        shrink_consistent(prev1, prev2, hi2),
        run1 == (match prev1 {
            Some(h) => h.t as int,
            None => hi1,
        }),
        run2 == (match prev2 {
            Some(h) => h.t as int,
            None => hi2,
        }),
        match prev1 {
            Some(h) => lo <= h.t <= hi1,
            None => true,
        },
    ensures
        ({
            let s1 = crate::objects::cube_step(cb, face, r, lo, prev1, run1);
            let s2 = crate::objects::cube_step(cb, face, r, lo, prev2, run2);
            &&& shrink_consistent(s1.0, s2.0, hi2)
            &&& s1.1 == (match s1.0 {
                Some(h) => h.t as int,
                None => hi1,
            })
            &&& s2.1 == (match s2.0 {
                Some(h) => h.t as int,
                None => hi2,
            })
            &&& match s1.0 {
                Some(h) => lo <= h.t <= hi1,
                None => true,
            }
        }),
{
}

/// The face fold of a box, under a shrunken start interval.
#[verifier::rlimit(100)]
#[verifier::spinoff_prover]
proof fn lemma_cube_shape_shrink(cb: Cube, r: Ray, lo: int, hi1: int, hi2: int)
    requires
        i64::MIN <= lo <= hi2 <= hi1 <= i64::MAX,
    ensures
        shrink_consistent(cb.hit_spec(r, lo, hi1), cb.hit_spec(r, lo, hi2), hi2),
{
    let a0 = crate::objects::cube_step(cb, 0, r, lo, None, hi1);
    let b0 = crate::objects::cube_step(cb, 0, r, lo, None, hi2);
    lemma_cube_step_shrink(cb, 0, r, lo, hi1, hi2, None, hi1, None, hi2);
    let a1 = crate::objects::cube_step(cb, 1, r, lo, a0.0, a0.1);
    let b1 = crate::objects::cube_step(cb, 1, r, lo, b0.0, b0.1);
    lemma_cube_step_shrink(cb, 1, r, lo, hi1, hi2, a0.0, a0.1, b0.0, b0.1);
    let a2 = crate::objects::cube_step(cb, 2, r, lo, a1.0, a1.1);
    let b2 = crate::objects::cube_step(cb, 2, r, lo, b1.0, b1.1);
    lemma_cube_step_shrink(cb, 2, r, lo, hi1, hi2, a1.0, a1.1, b1.0, b1.1);
    let a3 = crate::objects::cube_step(cb, 3, r, lo, a2.0, a2.1);
    let b3 = crate::objects::cube_step(cb, 3, r, lo, b2.0, b2.1);
    lemma_cube_step_shrink(cb, 3, r, lo, hi1, hi2, a2.0, a2.1, b2.0, b2.1);
    let a4 = crate::objects::cube_step(cb, 4, r, lo, a3.0, a3.1);
    let b4 = crate::objects::cube_step(cb, 4, r, lo, b3.0, b3.1);
    lemma_cube_step_shrink(cb, 4, r, lo, hi1, hi2, a3.0, a3.1, b3.0, b3.1);
    lemma_cube_step_shrink(cb, 5, r, lo, hi1, hi2, a4.0, a4.1, b4.0, b4.1);
}

/// A box reports the closest of its six fixed face candidates: the face
/// fold keeps closest-candidate behaviour.
#[verifier::rlimit(100)]
#[verifier::spinoff_prover]
pub proof fn lemma_cube_candidate_ok(p: Primitive, r: Ray)
    requires
        p is Cube,
    ensures
        shrink_ok(p, r),
        range_ok(p, r),
{
    assert forall|lo: int, hi: int| i64::MIN <= lo && hi <= i64::MAX implies match
        #[trigger] p.hit_spec(r, lo, hi) {
        Some(h) => lo <= h.t <= hi,
        None => true,
    } by {
        crate::objects::lemma_hit_spec_unfold(p, r, lo, hi);
    }
    assert forall|lo: int, hi1: int, hi2: int| i64::MIN <= lo <= hi2 <= hi1 <= i64::MAX
        implies shrink_consistent(
        #[trigger] p.hit_spec(r, lo, hi1),
        #[trigger] p.hit_spec(r, lo, hi2),
        hi2,
    ) by {
        crate::objects::lemma_hit_spec_unfold(p, r, lo, hi1);
        crate::objects::lemma_hit_spec_unfold(p, r, lo, hi2);
        lemma_cube_shape_shrink(p->Cube_0, r, lo, hi1, hi2);
    }
}

/// The transform wrappers inherit closest-candidate behaviour from the
/// shape they wrap: they keep the hit parameter and only map the record.
#[verifier::rlimit(100)]
#[verifier::spinoff_prover]
pub proof fn lemma_wrapper_candidate_ok(p: Primitive, r: Ray)
    requires
        match p {
            Primitive::Translate(w) => shrink_ok(
                *w.obj,
                crate::objects::moved_ray(r, w.offset),
            ) && range_ok(*w.obj, crate::objects::moved_ray(r, w.offset)),
            Primitive::RotateY(w) => {
                let rotated = Ray {
                    orig: crate::objects::rot_y_inv_spec(w.cos_theta as int, w.sin_theta as int, r.orig),
                    dir: crate::objects::rot_y_inv_spec(w.cos_theta as int, w.sin_theta as int, r.dir),
                    tm: r.tm,
                };
                shrink_ok(*w.obj, rotated) && range_ok(*w.obj, rotated)
            },
            Primitive::FlipFace(w) => shrink_ok(*w.obj, r) && range_ok(*w.obj, r),
            _ => false,
        },
    ensures
        shrink_ok(p, r),
        range_ok(p, r),
{
    assert forall|lo: int, hi: int| i64::MIN <= lo && hi <= i64::MAX implies match
        #[trigger] p.hit_spec(r, lo, hi) {
        Some(h) => lo <= h.t <= hi,
        None => true,
    } by {
        crate::objects::lemma_hit_spec_unfold(p, r, lo, hi);
    }
    assert forall|lo: int, hi1: int, hi2: int| i64::MIN <= lo <= hi2 <= hi1 <= i64::MAX
        implies shrink_consistent(
        #[trigger] p.hit_spec(r, lo, hi1),
        #[trigger] p.hit_spec(r, lo, hi2),
        hi2,
    ) by {
        crate::objects::lemma_hit_spec_unfold(p, r, lo, hi1);
        crate::objects::lemma_hit_spec_unfold(p, r, lo, hi2);
    }
}


/// One more level on a depth-probe answer.
pub open spec fn deeper(res: Option<(i64, u32)>) -> Option<(i64, u32)> {
    match res {
        Some((t, d)) => Some((t, if d < u32::MAX { (d + 1) as u32 } else { d })),
        None => None,
    }
}

/// The depth probe of a child slot.
pub open spec fn child_depth(c: Option<Box<Primitive>>, r: Ray, lo: int, hi: int) -> Option<(
    i64,
    u32,
)>
    decreases c,
{
    match c {
        Some(p) => p.bvh_depth_spec(r, lo, hi),
        None => None,
    }
}

/// The depth-probe semantics of a tree node: prune on the box, probe both
/// children, keep the closer parameter, and count this level.
pub open spec fn bvh_depth_spec(n: BvhNode, r: Ray, lo: int, hi: int) -> Option<(i64, u32)>
    decreases n,
{
    if !n.aabb.hit_spec(r, lo, hi) {
        None
    } else {
        match (child_depth(n.left, r, lo, hi), child_depth(n.right, r, lo, hi)) {
            (None, None) => None,
            (Some(ll), None) => deeper(Some(ll)),
            (None, Some(rr)) => deeper(Some(rr)),
            (Some(ll), Some(rr)) => if ll.0 < rr.0 {
                deeper(Some(ll))
            } else {
                deeper(Some(rr))
            },
        }
    }
}

impl BvhNode {
    /// Children well formed, and at least one present.
    pub open spec fn wf(self) -> bool
        decreases self,
    {
        &&& !(self.left is None && self.right is None)
        &&& match self.left {
            Some(p) => (*p).wf(),
            None => true,
        }
        &&& match self.right {
            Some(p) => (*p).wf(),
            None => true,
        }
    }

    /// No random medium anywhere below.
    pub open spec fn det(self) -> bool
        decreases self,
    {
        &&& match self.left {
            Some(p) => (*p).det(),
            None => true,
        }
        &&& match self.right {
            Some(p) => (*p).det(),
            None => true,
        }
    }

    /// Build a tree over the primitives.  An empty list is refused, as is a
    /// primitive without a bounding box; otherwise the tree holds exactly
    /// the given primitives as leaves.
    #[verifier::rlimit(100)]
    #[verifier::spinoff_prover]
    pub fn new(objects: Vec<Primitive>, time0: i64, time1: i64, s: &mut Sampler) -> (res: Result<
        BvhNode,
        BvhError,
    >)
        requires
            all_wf(objects@),
        ensures
            res == Err::<BvhNode, _>(BvhError::EmptyList) <==> objects@.len() == 0,
            objects@.len() > 0 && all_boxed(objects@, time0 as int, time1 as int) ==> res is Ok,
            res matches Ok(n) ==> n.wf(),
            res matches Ok(n) ==> forall|i: int|
                0 <= i < objects@.len() ==> match (#[trigger] objects@[i]).bounding_box_spec(
                    time0 as int,
                    time1 as int,
                ) {
                    Some(b) => n.aabb.contains_box(b),
                    None => true,
                },
            no_tree(objects@) ==> (res matches Ok(n) ==> node_leaves(n).to_multiset()
                == objects@.to_multiset()),
        decreases objects@.len(),
    {
        broadcast use vstd::seq_lib::group_to_multiset_ensures;

        let mut objects = objects;
        let ghost input = objects@;
        let n = objects.len();
        if n == 0 {
            return Err(BvhError::EmptyList);
        }
        if n == 1 {
            let first = objects.remove(0);
            let aabb = match first.bounding_box(time0, time1) {
                None => {
                    return Err(BvhError::MissingBox);
                },
                Some(ab) => ab,
            };
            let node = BvhNode { left: Some(Box::new(first)), right: None, aabb };
            proof {
                assert(first == input[0]);
                assert(node.aabb.contains_box(aabb));
                if !(first is Bvh) {
                    assert(node_leaves(node) =~= prim_leaves(first) + Seq::<Primitive>::empty());
                    assert(prim_leaves(first) == seq![first]);
                    assert(seq![first] =~= Seq::<Primitive>::empty().push(first));
                    assert(input =~= Seq::<Primitive>::empty().push(first));
                    assert(node_leaves(node).to_multiset() =~= input.to_multiset());
                }
            }
            return Ok(node);
        }
        if n == 2 {
            let first = objects.remove(0);
            let second = objects.remove(0);
            let b0 = match first.bounding_box(time0, time1) {
                None => {
                    return Err(BvhError::MissingBox);
                },
                Some(ab) => ab,
            };
            let b1 = match second.bounding_box(time0, time1) {
                None => {
                    return Err(BvhError::MissingBox);
                },
                Some(ab) => ab,
            };
            let aabb = Aabb::surrounding_box(&b0, &b1);
            let node = BvhNode {
                left: Some(Box::new(first)),
                right: Some(Box::new(second)),
                aabb,
            };
            proof {
                assert(first == input[0]);
                assert(second == input[1]);
                assert(node.aabb.contains_box(b0));
                assert(node.aabb.contains_box(b1));
                if no_tree(input) {
                    assert(!(first is Bvh) && !(second is Bvh));
                    assert(node_leaves(node) =~= prim_leaves(first) + prim_leaves(second));
                    lemma_to_multiset_concat(prim_leaves(first), prim_leaves(second));
                    assert(prim_leaves(first) == seq![first]);
                    assert(prim_leaves(second) == seq![second]);
                    assert(seq![first] =~= Seq::<Primitive>::empty().push(first));
                    assert(seq![second] =~= Seq::<Primitive>::empty().push(second));
                    assert(input
                        =~= Seq::<Primitive>::empty().push(first).push(second));
                    assert(node_leaves(node).to_multiset() =~= input.to_multiset());
                }
            }
            return Ok(node);
        }

        let axis = s.next_axis();
        let sorted = sort_by_key(objects, axis);
        let ghost sorted_view = sorted@;
        let mut left_half = sorted;
        let mid = left_half.len() / 2;
        let right_half = left_half.split_off(mid);
        proof {
            assert(left_half@ + right_half@ =~= sorted_view);
            lemma_to_multiset_concat(left_half@, right_half@);
            assert(all_wf(left_half@));
            assert(all_wf(right_half@));
            if no_tree(input) {
                lemma_no_tree_from_multiset(input, sorted_view);
                assert(no_tree(left_half@));
                assert(no_tree(right_half@));
            }
            if all_boxed(input, time0 as int, time1 as int) {
                lemma_all_boxed_from_multiset(input, sorted_view, time0 as int, time1 as int);
                assert(all_boxed(left_half@, time0 as int, time1 as int));
                assert(all_boxed(right_half@, time0 as int, time1 as int));
            }
        }
        let ghost left_view = left_half@;
        let ghost right_view = right_half@;
        let left_node = match BvhNode::new(left_half, time0, time1, s) {
            Ok(nn) => nn,
            Err(e) => {
                return Err(e);
            },
        };
        let right_node = match BvhNode::new(right_half, time0, time1, s) {
            Ok(nn) => nn,
            Err(e) => {
                return Err(e);
            },
        };
        let lb = left_node.aabb;
        let rb = right_node.aabb;
        let aabb = Aabb::surrounding_box(&lb, &rb);
        let node = BvhNode {
            left: Some(Box::new(Primitive::Bvh(Box::new(left_node)))),
            right: Some(Box::new(Primitive::Bvh(Box::new(right_node)))),
            aabb,
        };
        proof {
            broadcast use vstd::seq_lib::group_to_multiset_ensures;

            if no_tree(input) {
                assert(node_leaves(node) =~= node_leaves(left_node) + node_leaves(right_node));
                lemma_to_multiset_concat(node_leaves(left_node), node_leaves(right_node));
            }
            assert(node.aabb.contains_box(lb));
            assert(node.aabb.contains_box(rb));
            assert forall|i: int|
                0 <= i < input.len() implies match (#[trigger] input[i]).bounding_box_spec(
                    time0 as int,
                    time1 as int,
                ) {
                    Some(b) => node.aabb.contains_box(b),
                    None => true,
                } by {
                let x = input[i];
                match x.bounding_box_spec(time0 as int, time1 as int) {
                    Some(b) => {
                        assert(input.contains(x));
                        assert(input.to_multiset().count(x) > 0);
                        assert(sorted_view.contains(x));
                        let j = choose|j: int| 0 <= j < sorted_view.len() && sorted_view[j] == x;
                        assert(sorted_view == left_view + right_view);
                        if j < left_view.len() {
                            assert(left_view[j] == x);
                            assert(left_node.aabb.contains_box(b));
                            crate::aabb::lemma_contains_trans(node.aabb, left_node.aabb, b);
                        } else {
                            assert(right_view[j - left_view.len()] == x);
                            assert(right_node.aabb.contains_box(b));
                            crate::aabb::lemma_contains_trans(node.aabb, right_node.aabb, b);
                        }
                    },
                    None => {},
                }
            }
        }
        Ok(node)
    }

    /// Closest hit below this node: prune on the cached box, then take the
    /// closer of the children's hits.
    #[verifier::rlimit(100)]
    #[verifier::spinoff_prover]
    pub fn hit(&self, r: &Ray, tmin: i64, tmax: i64, s: &mut Sampler) -> (res: Option<HitRecord>)
        requires
            self.wf(),
        ensures
            self.det() ==> ghost_of(res) == bvh_hit_spec(*self, *r, tmin as int, tmax as int),
            res matches Some(h) ==> (*h.material).wf(),
        decreases *self,
    {
        if !self.aabb.hit(r, tmin, tmax) {
            return None;
        }
        let lres = match &self.left {
            Some(p) => p.hit(r, tmin, tmax, s),
            None => None,
        };
        let rres = match &self.right {
            Some(p) => p.hit(r, tmin, tmax, s),
            None => None,
        };
        proof {
            if self.det() {
                assert(ghost_of(lres) == child_res(self.left, *r, tmin as int, tmax as int));
                assert(ghost_of(rres) == child_res(self.right, *r, tmin as int, tmax as int));
            }
        }
        match (lres, rres) {
            (None, None) => None,
            (Some(lh), None) => Some(lh),
            (None, Some(rh)) => Some(rh),
            (Some(lh), Some(rh)) => if lh.t < rh.t {
                Some(lh)
            } else {
                Some(rh)
            },
        }
    }

    /// The traversal-cost probe: the closest hit parameter below this
    /// node together with the number of tree levels visited to find it.
    #[verifier::rlimit(100)]
    #[verifier::spinoff_prover]
    pub fn bvh_depth(&self, r: &Ray, tmin: i64, tmax: i64, s: &mut Sampler) -> (res: Option<(
        i64,
        u32,
    )>)
        requires
            self.wf(),
        ensures
            self.det() ==> res == bvh_depth_spec(*self, *r, tmin as int, tmax as int),
        decreases *self,
    {
        if !self.aabb.hit(r, tmin, tmax) {
            return None;
        }
        let lres = match &self.left {
            Some(p) => p.bvh_depth(r, tmin, tmax, s),
            None => None,
        };
        let rres = match &self.right {
            Some(p) => p.bvh_depth(r, tmin, tmax, s),
            None => None,
        };
        proof {
            if self.det() {
                assert(lres == child_depth(self.left, *r, tmin as int, tmax as int));
                assert(rres == child_depth(self.right, *r, tmin as int, tmax as int));
            }
        }
        let best = match (lres, rres) {
            (None, None) => {
                return None;
            },
            (Some(ll), None) => ll,
            (None, Some(rr)) => rr,
            (Some(ll), Some(rr)) => if ll.0 < rr.0 {
                ll
            } else {
                rr
            },
        };
        let d = if best.1 < u32::MAX {
            best.1 + 1
        } else {
            best.1
        };
        Some((best.0, d))
    }

    /// The cached box covers the whole subtree for any time interval.
    pub fn bounding_box(&self, _time0: i64, _time1: i64) -> (res: Option<Aabb>)
        ensures
            res == Some(self.aabb),
    {
        Some(self.aabb)
    }
}

} // verus!
