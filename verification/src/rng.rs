//! Seedable random number generation.
//!
//! The generator itself is rand_chacha's ChaCha generator; its state is
//! opaque to the verifier, and nothing is assumed about the values it
//! produces beyond the range that rand documents. What is verified here is
//! what the library builds on top of the raw samples: the in-place shuffle
//! keeps exactly the elements it is given.

use vstd::prelude::*;

use rand::Rng;
use rand::SeedableRng;

verus! {

/// Declares rand_chacha's ChaCha20Rng so that a field can hold a generator;
/// its state is opaque to the verifier.
#[verifier::external_type_specification]
#[verifier::external_body]
pub struct ExChaCha20Rng(rand_chacha::ChaCha20Rng);

/// Wraps some common random sample generation routines around a seedable
/// generator (ChaCha with 20 rounds).
pub struct Random {
    rng: rand_chacha::ChaCha20Rng,
}

impl Random {
    /// Creates a generator with the given seed. The same seed always yields
    /// the same stream of samples.
    ///
    /// Relies on rand's SeedableRng::seed_from_u64 for ChaCha20Rng, which
    /// derives the generator state from the seed alone.
    #[verifier::external_body]
    pub fn seed(s: u64) -> Random {
        Random { rng: rand_chacha::ChaCha20Rng::seed_from_u64(s) }
    }

    /// Returns a random value in `[min, max)`.
    ///
    /// Relies on rand's Rng::gen_range, which panics when `min >= max` and
    /// otherwise returns a value of the half-open range; which value comes
    /// back depends on the generator state, so nothing more is assumed.
    #[verifier::external_body]
    pub fn sample_in_range(&mut self, min: usize, max: usize) -> (sample: usize)
        requires
            min < max,
        ensures
            min <= sample < max,
    {
        self.rng.gen_range(min, max)
    }

    /// Shuffle a `Vec<usize>` in place: afterwards the vector holds exactly
    /// the elements it held before, reordered.
    ///
    /// * `v` - Vector to shuffle.
    pub fn permute(&mut self, v: &mut Vec<usize>)
        ensures
            final(v)@.len() == old(v)@.len(),
            final(v)@.to_multiset() == old(v)@.to_multiset(),
    {
        let mut i: usize = v.len();
        while i > 1
            invariant
                i <= v@.len(),
                v@.len() == old(v)@.len(),
                v@.to_multiset() == old(v)@.to_multiset(),
            decreases i,
        {
            i = i - 1;
            let target = self.sample_in_range(0, i);

            let x = v[i];
            let y = v[target];

            proof {
                lemma_swap_preserves_multiset(v@, i as int, target as int);
            }

            v[i] = y;
            v[target] = x;
        }
    }
}

/// Swapping two elements of a sequence does not change the multiset of its
/// elements.
proof fn lemma_swap_preserves_multiset<A>(s: Seq<A>, i: int, j: int)
    requires
        0 <= i < s.len(),
        0 <= j < s.len(),
    ensures
        s.update(i, s[j]).update(j, s[i]).to_multiset() == s.to_multiset(),
{
    broadcast use vstd::seq_lib::to_multiset_update;
    broadcast use vstd::seq_lib::group_to_multiset_ensures;

    let s1 = s.update(i, s[j]);
    let s2 = s1.update(j, s[i]);
    if i == j {
        assert(s2 =~= s);
    } else {
        assert(s1[j] == s[j]);
        assert(s.to_multiset().contains(s[i]));
        assert(s1.to_multiset() == s.to_multiset().insert(s[j]).remove(s[i]));
        assert(s2.to_multiset() == s1.to_multiset().insert(s[i]).remove(s1[j]));
        assert(s2.to_multiset() =~= s.to_multiset());
    }
}

} // verus!
