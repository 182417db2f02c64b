//! Single-octave gradient-noise sampler state.
//!
//! A sampler owns a 256-entry permutation table, a Fisher–Yates shuffle of
//! the identity drawn from the seeding generator, and three origin offsets
//! drawn before the table. The exact draw order is an invariant: changing it
//! silently desynchronizes world generation from the reference corpus. The
//! origins are unit-interval doubles scaled by 256; they are held here as
//! their exact integer numerators over 2^45, so callers that sample with
//! floating point reconstruct them without rounding.

use vstd::prelude::*;
use vstd::pervasive::VecAdditionalExecFns;

use crate::rng::{spec_gen_bounded, spec_gen_f64_num, spec_gen_f64_step, RandomGenerator};

verus! {

/// The identity table the shuffle starts from.
pub open spec fn spec_identity_table() -> Seq<u8> {
    Seq::new(256, |i: int| i as u8)
}

/// The generator state after the three origin draws.
pub open spec fn spec_perlin_prelude(g: RandomGenerator) -> RandomGenerator {
    spec_gen_f64_step(spec_gen_f64_step(spec_gen_f64_step(g)))
}

/// The shuffle from position `i` on: one bounded draw per position, in
/// order, swapping the drawn tail entry into place; yields the finished
/// table and the generator that continues after it.
pub open spec fn spec_perlin_shuffle(g: RandomGenerator, table: Seq<u8>, i: int) -> (
    Seq<u8>,
    RandomGenerator,
)
    decreases 256 - i,
{
    if i < 0 || i >= 256 {
        (table, g)
    } else {
        let (j, g2) = spec_gen_bounded(g, (256 - i) as i32);
        let swapped = table.update(i, table[i + j]).update(i + j, table[i]);
        spec_perlin_shuffle(g2, swapped, i + 1)
    }
}

/// The permutation table a construction from `g` produces.
pub open spec fn spec_perlin_table(g: RandomGenerator) -> Seq<u8> {
    spec_perlin_shuffle(spec_perlin_prelude(g), spec_identity_table(), 0).0
}

/// The generator state a construction from `g` leaves behind.
pub open spec fn spec_perlin_rng(g: RandomGenerator) -> RandomGenerator {
    spec_perlin_shuffle(spec_perlin_prelude(g), spec_identity_table(), 0).1
}

/// Whether `s` is exactly the sampler a construction from `g` produces.
pub open spec fn spec_is_perlin_of(s: PerlinNoiseSampler, g: RandomGenerator) -> bool {
    &&& s.permutation@ == spec_perlin_table(g)
    &&& s.x_origin_numerator == spec_gen_f64_num(g)
    &&& s.y_origin_numerator == spec_gen_f64_num(spec_gen_f64_step(g))
    &&& s.z_origin_numerator == spec_gen_f64_num(spec_gen_f64_step(spec_gen_f64_step(g)))
}

pub struct PerlinNoiseSampler {
    /// Shuffled permutation of the 256 byte values.
    pub permutation: Vec<u8>,
    /// Numerator over 2^45 of the x origin offset.
    pub x_origin_numerator: u64,
    /// Numerator over 2^45 of the y origin offset.
    pub y_origin_numerator: u64,
    /// Numerator over 2^45 of the z origin offset.
    pub z_origin_numerator: u64,
}

impl PerlinNoiseSampler {
    /// The table holds each of the 256 byte values exactly once, and each
    /// origin numerator stays below 2^53.
    pub open spec fn wf(self) -> bool {
        &&& self.permutation@.len() == 256
        &&& self.permutation@.to_multiset() == spec_identity_table().to_multiset()
        &&& self.x_origin_numerator < 0x20_0000_0000_0000
        &&& self.y_origin_numerator < 0x20_0000_0000_0000
        &&& self.z_origin_numerator < 0x20_0000_0000_0000
    }

    /// Draws the three origin offsets, then shuffles the identity table:
    /// for each index in order, one bounded draw picks the entry to swap in
    /// from the not-yet-fixed tail.
    pub fn new(random: &mut RandomGenerator) -> (r: Self)
        requires
            old(random).wf(),
        ensures
            r.wf(),
            spec_is_perlin_of(r, *old(random)),
            *final(random) == spec_perlin_rng(*old(random)),
            final(random).wf(),
    {
        let x_origin_numerator: u64 = random.next_f64_numerator();
        let y_origin_numerator: u64 = random.next_f64_numerator();
        let z_origin_numerator: u64 = random.next_f64_numerator();

        let mut permutation: Vec<u8> = Vec::new();
        let mut i: usize = 0;
        while i < 256
            invariant
                i <= 256,
                permutation@.len() == i,
                forall|k: int| 0 <= k < i ==> permutation@[k] == k as u8,
            decreases 256 - i,
        {
            permutation.push(i as u8);
            i = i + 1;
        }
        proof {
            assert(permutation@ =~= spec_identity_table());
        }

        let ghost after_origins = *random;
        proof {
            assert(after_origins == spec_perlin_prelude(*old(random)));
        }
        let mut i: usize = 0;
        while i < 256
            invariant
                i <= 256,
                random.wf(),
                permutation@.len() == 256,
                permutation@.to_multiset() == spec_identity_table().to_multiset(),
                spec_perlin_shuffle(after_origins, spec_identity_table(), 0)
                    == spec_perlin_shuffle(*random, permutation@, i as int),
            decreases 256 - i,
        {
            let ghost g_cur = *random;
            let bound: i32 = (256 - i) as i32;
            let j: i32 = random.next_bounded_i32(bound);
            let ja: usize = j as usize;
            let a: u8 = permutation[i];
            let b: u8 = permutation[i + ja];
            let ghost before = permutation@;
            permutation.set(i, b);
            permutation.set(i + ja, a);
            proof {
                lemma_swap_preserves_multiset(before, i as int, i + ja);
                assert(permutation@ =~= before.update(i as int, b).update(i + ja, a));
                assert(spec_perlin_shuffle(g_cur, before, i as int) == spec_perlin_shuffle(
                    *random,
                    permutation@,
                    i + 1,
                ));
            }
            i = i + 1;
        }
        proof {
            assert(spec_perlin_shuffle(*random, permutation@, 256) == (
                permutation@,
                *random,
            ));
        }

        PerlinNoiseSampler {
            permutation,
            x_origin_numerator,
            y_origin_numerator,
            z_origin_numerator,
        }
    }

    /// Looks up the table at the low byte of the input, the double-indirection
    /// primitive of corner hashing.
    pub fn map(&self, input: i32) -> (r: i32)
        requires
            self.wf(),
        ensures
            r == self.permutation@[(input & 0xFF) as int] as i32,
            0 <= r < 256,
    {
        let idx: i32 = input & 0xFF;
        proof {
            assert(0 <= input & 0xFF < 256) by (bit_vector);
        }
        self.permutation[idx as usize] as i32
    }
}

/// Swapping two entries of a sequence leaves its multiset unchanged.
proof fn lemma_swap_preserves_multiset(s: Seq<u8>, i: int, j: int)
    requires
        0 <= i < s.len(),
        0 <= j < s.len(),
    ensures
        s.update(i, s[j]).update(j, s[i]).to_multiset() == s.to_multiset(),
{
    broadcast use vstd::seq_lib::group_to_multiset_ensures;
    broadcast use vstd::seq_lib::to_multiset_update;

    if i == j {
        assert(s.update(i, s[j]).update(j, s[i]) =~= s);
    } else {
        let s1 = s.update(i, s[j]);
        assert(s1[j] == s[j]);
        assert(s1[i] == s[j]);
        assert(s1.to_multiset() == s.to_multiset().insert(s[j]).remove(s[i]));
        let s2 = s1.update(j, s[i]);
        assert(s2.to_multiset() == s1.to_multiset().insert(s[i]).remove(s1[j]));
        assert(s2.to_multiset() =~= s.to_multiset());
    }
}

} // verus!
