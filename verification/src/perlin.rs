//! Permutation tables for procedural noise.
//!
//! Lattice noise hashes integer lattice coordinates through three shuffled
//! index tables. The gradient vectors and the interpolation are
//! floating-point and live with the rest of the texture evaluation; the
//! tables themselves are verified here: each is a genuine permutation of
//! `0 .. POINT_COUNT`, so every table lookup lands back inside the gradient
//! array.

use vstd::prelude::*;

use crate::rng::random_int;
use crate::util::swap_entries;

verus! {

broadcast use vstd::seq_lib::group_to_multiset_ensures;

/// How many lattice gradients a noise instance keeps, and so how long each
/// permutation table is.
pub const POINT_COUNT: u32 = 256;

/// The table 0, 1, ..., n-1 in index order.
pub open spec fn identity_table(n: nat) -> Seq<u32> {
    Seq::new(n, |k: int| k as u32)
}

proof fn lemma_entries_bounded(s: Seq<u32>, n: nat)
    requires
        s.to_multiset() == identity_table(n).to_multiset(),
    ensures
        forall|k: int| 0 <= k < s.len() ==> (#[trigger] s[k]) < n,
{
    assert forall|k: int| 0 <= k < s.len() implies (#[trigger] s[k]) < n by {
        let v = s[k];
        assert(s.contains(v));
        assert(identity_table(n).to_multiset().count(v) > 0);
        assert(identity_table(n).contains(v));
        let j = choose|j: int| 0 <= j < identity_table(n).len() && identity_table(n)[j] == v;
        assert(v == j as u32);
    }
}

/// Shuffles the first `n` entries of the table in place by pairing each
/// position, from the top down, with a random partner at or below it. The
/// table afterwards holds exactly the entries it held before, and nothing
/// at or beyond `n` moves.
pub fn permute(p: &mut Vec<u32>, n: u32)
    requires
        n as int <= old(p)@.len(),
    ensures
        final(p)@.len() == old(p)@.len(),
        final(p)@.to_multiset() == old(p)@.to_multiset(),
        forall|k: int| n <= k < final(p)@.len() ==> final(p)@[k] == old(p)@[k],
{
    let mut i: u32 = n;
    while i > 1
        invariant
            i <= n,
            n as int <= p@.len(),
            p@.len() == old(p)@.len(),
            p@.to_multiset() == old(p)@.to_multiset(),
            forall|k: int| n <= k < p@.len() ==> p@[k] == old(p)@[k],
        decreases i,
    {
        i = i - 1;
        let target = random_int(0, i);
        swap_entries(p, i as usize, target as usize);
    }
}

/// The gradient slot for one corner of the noise lattice: each coordinate
/// is masked to the table's range and the three table entries are combined
/// by exclusive or. With in-range tables — which `perlin_generate_perm`
/// guarantees — the slot is below `POINT_COUNT`, so the gradient lookup it
/// feeds can never leave the gradient array.
pub fn lattice_index(
    perm_x: &Vec<u32>,
    perm_y: &Vec<u32>,
    perm_z: &Vec<u32>,
    i: i32,
    j: i32,
    k: i32,
) -> (r: u32)
    requires
        perm_x@.len() == POINT_COUNT,
        perm_y@.len() == POINT_COUNT,
        perm_z@.len() == POINT_COUNT,
        forall|t: int| 0 <= t < perm_x@.len() ==> (#[trigger] perm_x@[t]) < POINT_COUNT,
        forall|t: int| 0 <= t < perm_y@.len() ==> (#[trigger] perm_y@[t]) < POINT_COUNT,
        forall|t: int| 0 <= t < perm_z@.len() ==> (#[trigger] perm_z@[t]) < POINT_COUNT,
    ensures
        r < POINT_COUNT,
{
    proof {
        assert(0 <= (i & 255) && (i & 255) < 256) by (bit_vector);
        assert(0 <= (j & 255) && (j & 255) < 256) by (bit_vector);
        assert(0 <= (k & 255) && (k & 255) < 256) by (bit_vector);
    }
    let xi = (i & 255) as usize;
    let yj = (j & 255) as usize;
    let zk = (k & 255) as usize;
    let x = perm_x[xi];
    let y = perm_y[yj];
    let z = perm_z[zk];
    proof {
        assert(x < 256 && y < 256 && z < 256 ==> (x ^ y ^ z) < 256) by (bit_vector);
    }
    x ^ y ^ z
}

/// Builds one fresh permutation table: the identities
/// `0 .. POINT_COUNT`, shuffled. Every entry is below `POINT_COUNT`, so
/// the table can index the gradient array directly.
pub fn perlin_generate_perm() -> (p: Vec<u32>)
    ensures
        p@.len() == POINT_COUNT,
        p@.to_multiset() == identity_table(POINT_COUNT as nat).to_multiset(),
        forall|k: int| 0 <= k < p@.len() ==> (#[trigger] p@[k]) < POINT_COUNT,
{
    let mut p: Vec<u32> = Vec::new();
    let mut i: u32 = 0;
    while i < POINT_COUNT
        invariant
            i <= POINT_COUNT,
            p@.len() == i,
            forall|k: int| 0 <= k < i ==> (#[trigger] p@[k]) == k as u32,
        decreases POINT_COUNT - i,
    {
        p.push(i);
        i = i + 1;
    }
    proof {
        assert(p@ =~= identity_table(POINT_COUNT as nat));
    }
    permute(&mut p, POINT_COUNT);
    proof {
        lemma_entries_bounded(p@, POINT_COUNT as nat);
    }
    p
}

} // verus!
