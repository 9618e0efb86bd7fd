//! The shape of the bounding volume hierarchy.
//!
//! Building the hierarchy is a recursive median split: pick a random axis,
//! sort the surfaces by the minimum corner of their bounding box along that
//! axis, split at the middle index, and recurse on both halves; a single
//! surface becomes a leaf. Everything about this construction except the
//! box geometry itself is combinatorial, and is verified here over integer
//! ordering keys: the planner returns a binary tree whose leaves carry
//! exactly the given surfaces, each exactly once. The caller derives the
//! keys from the boxes by any order-preserving map and assembles the real
//! nodes (with their merged boxes) by walking the plan.

use vstd::multiset::Multiset;
use vstd::prelude::*;

use crate::rng::random_int;

verus! {

broadcast use vstd::seq_lib::group_to_multiset_ensures;

/// One surface's ordering key along each of the three axes: the minimum
/// corner of its bounding box, mapped order-preservingly to integers.
#[derive(Clone, Copy, PartialEq, Eq, Structural, Debug)]
pub struct SurfaceKeys {
    pub x: u64,
    pub y: u64,
    pub z: u64,
}

/// The shape of a hierarchy over a collection of surfaces: which surface
/// each leaf holds and how the internal nodes split.
pub enum BvhPlan {
    Leaf(usize),
    Split(Box<BvhPlan>, Box<BvhPlan>),
}

impl BvhPlan {
    /// The surfaces at the leaves, left to right.
    pub open spec fn leaves(self) -> Seq<usize>
        decreases self,
    {
        match self {
            BvhPlan::Leaf(i) => seq![i],
            BvhPlan::Split(l, r) => l.leaves() + r.leaves(),
        }
    }
}

/// The key along one axis (0, 1 or 2 for x, y, z).
pub open spec fn key_along(k: SurfaceKeys, axis: int) -> u64 {
    if axis == 0 {
        k.x
    } else if axis == 1 {
        k.y
    } else {
        k.z
    }
}

fn axis_key(keys: &Vec<SurfaceKeys>, item: usize, axis: u32) -> (r: u64)
    requires
        item < keys@.len(),
    ensures
        r == key_along(keys@[item as int], axis as int),
{
    let k = keys[item];
    if axis == 0 {
        k.x
    } else if axis == 1 {
        k.y
    } else {
        k.z
    }
}

/// Sorts surface indices by their key along the chosen axis, returning the
/// same indices in non-decreasing key order (insertion sort).
fn sort_by_axis(items: &mut Vec<usize>, keys: &Vec<SurfaceKeys>, axis: u32)
    requires
        forall|k: int|
            0 <= k < old(items)@.len() ==> (#[trigger] old(items)@[k]) < keys@.len(),
    ensures
        final(items)@.len() == old(items)@.len(),
        final(items)@.to_multiset() == old(items)@.to_multiset(),
        forall|k: int|
            0 <= k < final(items)@.len() ==> (#[trigger] final(items)@[k]) < keys@.len(),
        forall|a: int, b: int|
            0 <= a < b < final(items)@.len() ==> key_along(
                keys@[final(items)@[a] as int],
                axis as int,
            ) <= key_along(keys@[final(items)@[b] as int], axis as int),
{
    let n = items.len();
    if n < 2 {
        return ;
    }
    let mut i: usize = 1;
    while i < n
        invariant
            i <= n,
            n == items@.len(),
            items@.to_multiset() == old(items)@.to_multiset(),
            forall|k: int| 0 <= k < items@.len() ==> (#[trigger] items@[k]) < keys@.len(),
            forall|a: int, b: int|
                0 <= a < b < i ==> key_along(keys@[items@[a] as int], axis as int)
                    <= key_along(keys@[items@[b] as int], axis as int),
        decreases n - i,
    {
        let mut j: usize = i;
        while j > 0 && axis_key(keys, items[j - 1], axis) > axis_key(keys, items[j], axis)
            invariant
                j <= i < n,
                n == items@.len(),
                items@.to_multiset() == old(items)@.to_multiset(),
                forall|k: int| 0 <= k < items@.len() ==> (#[trigger] items@[k]) < keys@.len(),
                forall|a: int, b: int|
                    0 <= a < b <= i && b != j ==> key_along(keys@[items@[a] as int], axis as int)
                        <= key_along(keys@[items@[b] as int], axis as int),
            decreases j,
        {
            crate::util::swap_entries(items, j - 1, j);
            j = j - 1;
        }
        i = i + 1;
    }
}

/// Builds the hierarchy's shape over the given surface indices: a lone
/// index becomes a leaf; otherwise the indices are sorted along a randomly
/// chosen axis, split at the middle, and both halves are planned
/// recursively. The plan's leaves are exactly the given indices.
fn build_plan(items: Vec<usize>, keys: &Vec<SurfaceKeys>) -> (p: BvhPlan)
    requires
        items@.len() >= 1,
        forall|k: int| 0 <= k < items@.len() ==> (#[trigger] items@[k]) < keys@.len(),
    ensures
        p.leaves().to_multiset() == items@.to_multiset(),
    decreases items@.len(),
{
    let n = items.len();
    if n == 1 {
        let p = BvhPlan::Leaf(items[0]);
        proof {
            assert(p.leaves() =~= items@);
        }
        p
    } else {
        let axis = random_int(0, 2);
        let mut sorted = items;
        sort_by_axis(&mut sorted, keys, axis);
        if n == 2 {
            let p = BvhPlan::Split(
                Box::new(BvhPlan::Leaf(sorted[0])),
                Box::new(BvhPlan::Leaf(sorted[1])),
            );
            proof {
                assert(BvhPlan::Leaf(sorted@[0]).leaves() =~= seq![sorted@[0]]);
                assert(BvhPlan::Leaf(sorted@[1]).leaves() =~= seq![sorted@[1]]);
                assert(p.leaves() =~= sorted@);
            }
            p
        } else {
            let ghost presorted = sorted@;
            let right_items = sorted.split_off(n / 2);
            proof {
                assert(sorted@ + right_items@ =~= presorted);
                vstd::seq_lib::lemma_multiset_commutative(sorted@, right_items@);
                assert(forall|k: int|
                    0 <= k < sorted@.len() ==> (#[trigger] sorted@[k]) == presorted[k]);
                assert(forall|k: int|
                    0 <= k < right_items@.len() ==> (#[trigger] right_items@[k]) == presorted[
                        k + sorted@.len()
                    ]);
            }
            let ghost left_part = sorted@;
            let ghost right_part = right_items@;
            let left = build_plan(sorted, keys);
            let right = build_plan(right_items, keys);
            let p = BvhPlan::Split(Box::new(left), Box::new(right));
            proof {
                vstd::seq_lib::lemma_multiset_commutative(left.leaves(), right.leaves());
                assert(p.leaves().to_multiset() == left_part.to_multiset().add(
                    right_part.to_multiset(),
                ));
            }
            p
        }
    }
}

/// The identity arrangement of `n` surfaces, in index order.
pub open spec fn all_surfaces(n: nat) -> Seq<usize> {
    Seq::new(n, |k: int| k as usize)
}

proof fn lemma_all_surfaces_count(n: nat, s: usize)
    requires
        n <= usize::MAX,
    ensures
        all_surfaces(n).to_multiset().count(s) == if (s as nat) < n {
            1nat
        } else {
            0nat
        },
    decreases n,
{
    broadcast use vstd::multiset::group_multiset_properties;

    if n == 0 {
        assert(all_surfaces(0) =~= Seq::<usize>::empty());
        assert(all_surfaces(0).to_multiset() =~= Multiset::<usize>::empty());
    } else {
        let m = (n - 1) as nat;
        lemma_all_surfaces_count(m, s);
        assert(all_surfaces(n) =~= all_surfaces(m).push(m as usize));
    }
}

/// The structural half of BVH equivalence: a plan over `n` surfaces has
/// exactly `n` leaves, every leaf names a surface of the scene, and each
/// surface stands at exactly one leaf. The hierarchy neither drops nor
/// duplicates a surface, so a traversal consults exactly the surfaces that
/// the linear scan of the collection does.
pub proof fn lemma_plan_covers_scene(p: BvhPlan, n: nat)
    requires
        n <= usize::MAX,
        p.leaves().to_multiset() == all_surfaces(n).to_multiset(),
    ensures
        p.leaves().len() == n,
        forall|k: int| 0 <= k < p.leaves().len() ==> (#[trigger] p.leaves()[k]) < n,
        forall|s: usize| (s as nat) < n ==> p.leaves().to_multiset().count(s) == 1,
{
    assert(p.leaves().len() == p.leaves().to_multiset().len());
    assert(all_surfaces(n).len() == all_surfaces(n).to_multiset().len());
    assert forall|k: int| 0 <= k < p.leaves().len() implies (#[trigger] p.leaves()[k]) < n by {
        let v = p.leaves()[k];
        assert(p.leaves().contains(v));
        assert(all_surfaces(n).to_multiset().count(v) > 0);
        assert(all_surfaces(n).contains(v));
        let j = choose|j: int| 0 <= j < all_surfaces(n).len() && all_surfaces(n)[j] == v;
        assert(v == j as usize);
    }
    assert forall|s: usize| (s as nat) < n implies p.leaves().to_multiset().count(s) == 1 by {
        lemma_all_surfaces_count(n, s);
    }
}

/// Plans a hierarchy over surfaces `0 .. keys.len()` from their per-axis
/// ordering keys. The collection must not be empty.
pub fn bvh_plan(keys: &Vec<SurfaceKeys>) -> (p: BvhPlan)
    requires
        keys@.len() >= 1,
    ensures
        p.leaves().to_multiset() == all_surfaces(keys@.len()).to_multiset(),
{
    let n = keys.len();
    let mut items: Vec<usize> = Vec::new();
    let mut k: usize = 0;
    while k < n
        invariant
            k <= n,
            items@.len() == k,
            forall|t: int| 0 <= t < k ==> (#[trigger] items@[t]) == t as usize,
        decreases n - k,
    {
        items.push(k);
        k = k + 1;
    }
    proof {
        assert(items@ =~= all_surfaces(keys@.len()));
    }
    build_plan(items, keys)
}

} // verus!
