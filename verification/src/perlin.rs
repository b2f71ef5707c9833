//! Permutation tables for the Perlin noise generator.
//!
//! The noise texture indexes a table of random gradients through one shuffled
//! index table per axis; what matters for the noise to be well defined is
//! that each table is a permutation of `0..n`, so that every lookup stays in
//! range and every gradient remains reachable.

use vstd::prelude::*;

use crate::rng::Random;

verus! {

/// The identity table `0, 1, ..., n - 1`.
pub open spec fn spec_identity_table(n: int) -> Seq<usize> {
    Seq::new(n as nat, |i: int| i as usize)
}

/// Generate a random permutation of `0..n`.
///
/// * `n` - Number of points.
/// * `rng` - Random number generator.
pub fn perlin_generate_perm(n: usize, rng: &mut Random) -> (perm: Vec<usize>)
    ensures
        perm@.len() == n,
        perm@.to_multiset() == spec_identity_table(n as int).to_multiset(),
        forall|m: int| 0 <= m < n ==> #[trigger] perm@[m] < n,
{
    let mut p: Vec<usize> = Vec::new();
    let mut k: usize = 0;
    while k < n
        invariant
            k <= n,
            p@ =~= spec_identity_table(k as int),
        decreases n - k,
    {
        p.push(k);
        k = k + 1;
    }
    proof {
        assert(p@ =~= spec_identity_table(n as int));
    }
    rng.permute(&mut p);
    proof {
        lemma_identity_rearrangement_in_range(p@, n);
    }
    p
}

/// A sequence holding the elements of the identity table `0..n`, in any
/// order, holds only values below `n`.
proof fn lemma_identity_rearrangement_in_range(s: Seq<usize>, n: usize)
    requires
        s.to_multiset() == spec_identity_table(n as int).to_multiset(),
    ensures
        forall|m: int| 0 <= m < s.len() ==> #[trigger] s[m] < n,
{
    broadcast use vstd::seq_lib::group_to_multiset_ensures;

    assert forall|m: int| 0 <= m < s.len() implies #[trigger] s[m] < n by {
        assert(s.contains(s[m]));
        assert(s.to_multiset().count(s[m]) > 0);
        assert(spec_identity_table(n as int).contains(s[m]));
        let w = choose|w: int|
            0 <= w < n && spec_identity_table(n as int)[w] == s[m];
        assert(s[m] == w as usize);
    }
}

} // verus!
