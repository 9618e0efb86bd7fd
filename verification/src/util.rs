//! Small verified helpers on vectors.

use vstd::prelude::*;

verus! {

broadcast use vstd::seq_lib::group_to_multiset_ensures;

/// Exchanges two entries; the collection of entries is unchanged.
pub(crate) fn swap_entries<T: Copy>(v: &mut Vec<T>, a: usize, b: usize)
    requires
        a < old(v)@.len(),
        b < old(v)@.len(),
    ensures
        final(v)@ == old(v)@.update(a as int, old(v)@[b as int]).update(
            b as int,
            old(v)@[a as int],
        ),
        final(v)@.len() == old(v)@.len(),
        final(v)@.to_multiset() == old(v)@.to_multiset(),
{
    let ghost s = v@;
    let va = v[a];
    let vb = v[b];
    v.set(a, vb);
    v.set(b, va);
    proof {
        broadcast use vstd::multiset::group_multiset_axioms;

        assert(s.contains(s[a as int]));
        assert(s.contains(s[b as int]));
        assert(s.update(a as int, s[b as int])[b as int] == s[b as int]);
        assert(v@.to_multiset() =~= s.to_multiset());
    }
}

} // verus!
