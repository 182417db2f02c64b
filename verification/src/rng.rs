//! Seeded deterministic pseudo-random sources.
//!
//! Two generator families live side by side because historical world
//! generation depends on both: a legacy 48-bit linear-congruential generator
//! and a modern splittable xoroshiro-class generator with 128 bits of state.
//! Every draw is specified bit for bit; world generation desynchronizes from
//! the reference corpus if a single draw changes.

use vstd::prelude::*;
use vstd::string::StrSliceExecFns;

use crate::digest::{md5_digest, md5_of, spec_u64_from_be, u64_from_be};

verus! {

/// Left rotation of a 64-bit word by a fixed amount.
pub open spec fn spec_rotl64(x: u64, k: u64) -> u64
    recommends
        0 < k < 64,
{
    (x << k) | (x >> ((64 - k) as u64))
}

fn rotl64(x: u64, k: u64) -> (r: u64)
    requires
        0 < k < 64,
    ensures
        r == spec_rotl64(x, k),
{
    (x << k) | (x >> ((64 - k) as u64))
}

/// Interprets the low 32 bits of a word as a two's-complement signed integer.
pub open spec fn spec_u64_to_i32(v: u64) -> i32 {
    if v % 0x1_0000_0000 < 0x8000_0000 {
        (v % 0x1_0000_0000) as i32
    } else {
        (v % 0x1_0000_0000 - 0x1_0000_0000) as i32
    }
}

/// Interprets a 64-bit word as a two's-complement signed integer.
pub open spec fn spec_u64_to_i64(v: u64) -> i64 {
    if v < 0x8000_0000_0000_0000 {
        v as i64
    } else {
        (v - 0x1_0000_0000_0000_0000) as i64
    }
}

/// The two's-complement 64-bit word of a signed integer.
pub open spec fn spec_i64_to_u64(v: i64) -> u64 {
    if v >= 0 {
        v as u64
    } else {
        (v + 0x1_0000_0000_0000_0000) as u64
    }
}

fn u64_to_i32(v: u64) -> (r: i32)
    ensures
        r == spec_u64_to_i32(v),
{
    let low: u64 = v % 0x1_0000_0000;
    if low < 0x8000_0000 {
        low as i32
    } else {
        let shifted: i64 = low as i64 - 0x1_0000_0000i64;
        shifted as i32
    }
}

fn u64_to_i64(v: u64) -> (r: i64)
    ensures
        r == spec_u64_to_i64(v),
{
    if v < 0x8000_0000_0000_0000 {
        v as i64
    } else {
        let reduced: u64 = v - 0x8000_0000_0000_0000;
        assert(reduced < 0x8000_0000_0000_0000);
        reduced as i64 + i64::MIN
    }
}

fn i64_to_u64(v: i64) -> (r: u64)
    ensures
        r == spec_i64_to_u64(v),
{
    if v >= 0 {
        v as u64
    } else {
        let shifted: i64 = v - i64::MIN;
        assert(shifted >= 0);
        shifted as u64 + 0x8000_0000_0000_0000
    }
}

/// Finalization step of the splitmix-style seed upgrade.
pub open spec fn spec_mix_stafford_13(z: u64) -> u64 {
    let a = (z ^ (z >> 30u64)).wrapping_mul(0xBF58476D1CE4E5B9);
    let b = (a ^ (a >> 27u64)).wrapping_mul(0x94D049BB133111EB);
    b ^ (b >> 31u64)
}

fn mix_stafford_13(z: u64) -> (r: u64)
    ensures
        r == spec_mix_stafford_13(z),
{
    let a: u64 = (z ^ (z >> 30u64)).wrapping_mul(0xBF58476D1CE4E5B9);
    let b: u64 = (a ^ (a >> 27u64)).wrapping_mul(0x94D049BB133111EB);
    b ^ (b >> 31u64)
}

/// 128-bit state of the splittable xoroshiro-class generator.
#[derive(Clone, Copy, Debug, PartialEq, Eq, Structural)]
pub struct Xoroshiro {
    pub lo: u64,
    pub hi: u64,
}

/// State produced by upgrading a raw pair: an all-zero pair is replaced by
/// the golden/silver-ratio constants so the generator never locks at zero.
pub open spec fn spec_xoro_new(lo: u64, hi: u64) -> Xoroshiro {
    if lo == 0 && hi == 0 {
        Xoroshiro { lo: 0x9E3779B97F4A7C15, hi: 0x6A09E667F3BCC909 }
    } else {
        Xoroshiro { lo, hi }
    }
}

/// State derived from a 64-bit seed: the seed is spread over 128 bits with
/// the silver- and golden-ratio constants and both halves are mixed.
pub open spec fn spec_xoro_from_seed(seed: u64) -> Xoroshiro {
    let l = seed ^ 0x6A09E667F3BCC909;
    let h = l.wrapping_add(0x9E3779B97F4A7C15);
    spec_xoro_new(spec_mix_stafford_13(l), spec_mix_stafford_13(h))
}

/// The 64-bit word a state yields on its next draw.
pub open spec fn spec_xoro_value(s: Xoroshiro) -> u64 {
    spec_rotl64(s.lo.wrapping_add(s.hi), 17).wrapping_add(s.lo)
}

/// The state after one draw.
pub open spec fn spec_xoro_step(s: Xoroshiro) -> Xoroshiro {
    let m = s.hi ^ s.lo;
    Xoroshiro {
        lo: spec_rotl64(s.lo, 49) ^ m ^ m.wrapping_shl(21),
        hi: spec_rotl64(m, 28),
    }
}

/// The state after `n` draws.
pub open spec fn spec_xoro_skip(s: Xoroshiro, n: nat) -> Xoroshiro
    decreases n,
{
    if n == 0 {
        s
    } else {
        spec_xoro_skip(spec_xoro_step(s), (n - 1) as nat)
    }
}

/// Rejection threshold of the multiply-shift bounded draw: the first draw is
/// accepted whenever the low product half is at least this value.
pub open spec fn spec_lemire_threshold(bound: i32) -> int
    recommends
        bound > 0,
{
    (0x1_0000_0000 - bound) % (bound as int)
}

/// Retries a rejected bounded draw may consume before its loop gives up;
/// each retry is rejected with chance below 2^-31, so the bound is never
/// reached and only gives the draw a finite definition.
pub const BOUNDED_DRAW_FUEL: u64 = 0xFFFF_FFFF_FFFF_FFFF;

/// The multiply-shift bounded draw with rejection, exactly as executed: the
/// current word is accepted when its low product half clears the threshold,
/// or when the fuel is spent; otherwise the next word is tried.
pub open spec fn spec_xoro_bounded(s: Xoroshiro, bound: i32, fuel: nat) -> (i32, Xoroshiro)
    recommends
        bound > 0,
    decreases fuel,
{
    let l = spec_xoro_value(s) % 0x1_0000_0000;
    let s2 = spec_xoro_step(s);
    let m = (l as int) * bound;
    if m % 0x1_0000_0000 >= spec_lemire_threshold(bound) || fuel == 0 {
        ((m / 0x1_0000_0000) as i32, s2)
    } else {
        spec_xoro_bounded(s2, bound, (fuel - 1) as nat)
    }
}

impl Xoroshiro {
    pub fn new(lo: u64, hi: u64) -> (r: Self)
        ensures
            r == spec_xoro_new(lo, hi),
    {
        if lo == 0 && hi == 0 {
            Xoroshiro { lo: 0x9E3779B97F4A7C15, hi: 0x6A09E667F3BCC909 }
        } else {
            Xoroshiro { lo, hi }
        }
    }

    pub fn from_seed(seed: u64) -> (r: Self)
        ensures
            r == spec_xoro_from_seed(seed),
    {
        let l: u64 = seed ^ 0x6A09E667F3BCC909;
        let h: u64 = l.wrapping_add(0x9E3779B97F4A7C15);
        Self::new(mix_stafford_13(l), mix_stafford_13(h))
    }

    pub fn next_u64(&mut self) -> (r: u64)
        ensures
            r == spec_xoro_value(*old(self)),
            *final(self) == spec_xoro_step(*old(self)),
    {
        let l: u64 = self.lo;
        let h: u64 = self.hi;
        let n: u64 = rotl64(l.wrapping_add(h), 17).wrapping_add(l);
        let m: u64 = h ^ l;
        self.lo = rotl64(l, 49) ^ m ^ m.wrapping_shl(21);
        self.hi = rotl64(m, 28);
        n
    }

    pub fn next_i64(&mut self) -> (r: i64)
        ensures
            r == spec_u64_to_i64(spec_xoro_value(*old(self))),
            *final(self) == spec_xoro_step(*old(self)),
    {
        let v: u64 = self.next_u64();
        u64_to_i64(v)
    }

    pub fn next_i32(&mut self) -> (r: i32)
        ensures
            r == spec_u64_to_i32(spec_xoro_value(*old(self))),
            *final(self) == spec_xoro_step(*old(self)),
    {
        let v: u64 = self.next_u64();
        u64_to_i32(v)
    }

    /// Numerator over 2^53 of the unit-interval double the generator yields:
    /// the top 53 bits of one draw.
    pub fn next_f64_numerator(&mut self) -> (r: u64)
        ensures
            r == spec_xoro_value(*old(self)) >> 11u64,
            r < 0x20_0000_0000_0000,
            *final(self) == spec_xoro_step(*old(self)),
    {
        let v: u64 = self.next_u64();
        let n: u64 = v >> 11u64;
        assert(n < 0x20_0000_0000_0000) by (bit_vector)
            requires
                n == v >> 11u64,
        ;
        n
    }

    /// Bounded draw by the unsigned multiply-shift method with rejection,
    /// pinned draw for draw to its specification mirror.
    pub fn next_bounded_i32(&mut self, bound: i32) -> (r: i32)
        requires
            bound > 0,
        ensures
            0 <= r < bound,
            r == spec_xoro_bounded(*old(self), bound, BOUNDED_DRAW_FUEL as nat).0,
            *final(self) == spec_xoro_bounded(*old(self), bound, BOUNDED_DRAW_FUEL as nat).1,
    {
        let ghost start = *self;
        let b: u64 = bound as u64;
        let v0: u64 = self.next_u64();
        let l0: u64 = v0 % 0x1_0000_0000;
        assert(l0 * b < 0x1_0000_0000 * b) by (nonlinear_arith)
            requires
                l0 < 0x1_0000_0000,
                b > 0,
        ;
        let mut m: u64 = l0 * b;
        let mut n: u64 = m % 0x1_0000_0000;

        // Threshold below which a low product half is rejected.
        let neg: u64 = (0x1_0000_0000u64 - b) % b;
        assert(neg == spec_lemire_threshold(bound));

        let mut fuel: u64 = BOUNDED_DRAW_FUEL;
        while n < neg && fuel > 0
            invariant
                b == bound,
                0 < b < 0x8000_0000,
                neg == spec_lemire_threshold(bound),
                m < 0x1_0000_0000 * b,
                n == m % 0x1_0000_0000,
                spec_xoro_bounded(start, bound, BOUNDED_DRAW_FUEL as nat) == (if n >= neg || fuel
                    == 0 {
                    (((m / 0x1_0000_0000) as i32, *self))
                } else {
                    spec_xoro_bounded(*self, bound, (fuel - 1) as nat)
                }),
            decreases fuel,
        {
            fuel = fuel - 1;
            let ghost mid = *self;
            let v: u64 = self.next_u64();
            let l: u64 = v % 0x1_0000_0000;
            assert(l * b < 0x1_0000_0000 * b) by (nonlinear_arith)
                requires
                    l < 0x1_0000_0000,
                    b > 0,
            ;
            m = l * b;
            n = m % 0x1_0000_0000;
            proof {
                assert(spec_xoro_bounded(start, bound, BOUNDED_DRAW_FUEL as nat)
                    == spec_xoro_bounded(mid, bound, fuel as nat));
            }
        }
        let r: u64 = m / 0x1_0000_0000;
        assert(r < b) by (nonlinear_arith)
            requires
                m < 0x1_0000_0000 * b,
                r == m / 0x1_0000_0000,
                b > 0,
        ;
        r as i32
    }

    /// Discards `count` draws, keeping the stream aligned with callers that
    /// consumed them for real.
    pub fn skip(&mut self, count: u32)
        ensures
            *final(self) == spec_xoro_skip(*old(self), count as nat),
    {
        let mut i: u32 = 0;
        while i < count
            invariant
                i <= count,
                spec_xoro_skip(*old(self), count as nat) == spec_xoro_skip(
                    *self,
                    (count - i) as nat,
                ),
            decreases count - i,
        {
            proof {
                assert(spec_xoro_skip(*self, (count - i) as nat) == spec_xoro_skip(
                    spec_xoro_step(*self),
                    (count - i - 1) as nat,
                ));
            }
            let _ = self.next_u64();
            i = i + 1;
        }
    }
}

/// 48-bit state of the legacy linear-congruential generator.
#[derive(Clone, Copy, Debug, PartialEq, Eq, Structural)]
pub struct LegacyRand {
    pub state: u64,
}

/// Initial state: the seed is scrambled with the LCG multiplier and cut to 48 bits.
pub open spec fn spec_lcg_init(seed: u64) -> u64 {
    (seed ^ 0x5DEECE66D) & 0xFFFF_FFFF_FFFF
}

/// One step of the 48-bit linear congruence.
#[verifier::opaque]
pub open spec fn spec_lcg_step(s: u64) -> u64 {
    s.wrapping_mul(0x5DEECE66D).wrapping_add(0xB) & 0xFFFF_FFFF_FFFF
}

/// The 48-bit state after `n` single draws.
pub open spec fn spec_lcg_skip(s: u64, n: nat) -> u64
    decreases n,
{
    if n == 0 {
        s
    } else {
        spec_lcg_skip(spec_lcg_step(s), (n - 1) as nat)
    }
}

/// The `bits` most significant bits of the stepped 48-bit state.
#[verifier::opaque]
pub open spec fn spec_lcg_bits(s: u64, bits: u64) -> u64
    recommends
        s < 0x1_0000_0000_0000,
        0 < bits <= 32,
{
    spec_lcg_step(s) >> ((48 - bits) as u64)
}

/// The legacy bounded draw, exactly as executed: one exact multiply-shift
/// for power-of-two bounds; otherwise the classical remainder with overflow
/// rejection, retried until accepted or the fuel is spent.
pub open spec fn spec_lcg_bounded(s: u64, bound: i32, fuel: nat) -> (i32, u64)
    recommends
        s < 0x1_0000_0000_0000,
        bound > 0,
    decreases fuel,
{
    if bound & ((bound - 1) as i32) == 0 {
        let bits = spec_lcg_bits(s, 31);
        ((bound * bits / 0x8000_0000) as i32, spec_lcg_step(s))
    } else {
        let bits = spec_lcg_bits(s, 31) as int;
        let val = bits % (bound as int);
        if bits - val + (bound - 1) < 0x8000_0000 || fuel == 0 {
            (val as i32, spec_lcg_step(s))
        } else {
            spec_lcg_bounded(spec_lcg_step(s), bound, (fuel - 1) as nat)
        }
    }
}

/// The signed 64-bit word two consecutive legacy draws assemble.
pub open spec fn spec_lcg_i64(s: u64) -> i64 {
    let hi = spec_u64_to_i32(spec_lcg_bits(s, 32));
    let lo = spec_u64_to_i32(spec_lcg_bits(spec_lcg_step(s), 32));
    (hi as i64).wrapping_shl(32).wrapping_add(lo as i64)
}

impl LegacyRand {
    pub open spec fn wf(self) -> bool {
        self.state < 0x1_0000_0000_0000
    }

    pub fn from_seed(seed: u64) -> (r: Self)
        ensures
            r.state == spec_lcg_init(seed),
            r.wf(),
    {
        let mixed: u64 = seed ^ 0x5DEECE66D;
        let state: u64 = mixed & 0xFFFF_FFFF_FFFF;
        proof {
            assert(mixed & 0xFFFF_FFFF_FFFF < 0x1_0000_0000_0000) by (bit_vector);
        }
        LegacyRand { state }
    }

    /// Advances the congruence once and yields the top `bits` bits.
    fn next_bits(&mut self, bits: u64) -> (r: u64)
        requires
            old(self).wf(),
            0 < bits <= 32,
        ensures
            r == spec_lcg_bits(old(self).state, bits),
            r < (1u64 << bits),
            r < 0x1_0000_0000,
            final(self).state == spec_lcg_step(old(self).state),
            final(self).wf(),
    {
        proof {
            reveal(spec_lcg_step);
            reveal(spec_lcg_bits);
        }
        let scrambled: u64 = self.state.wrapping_mul(0x5DEECE66D).wrapping_add(0xB);
        let next: u64 = scrambled & 0xFFFF_FFFF_FFFF;
        proof {
            assert(scrambled & 0xFFFF_FFFF_FFFF < 0x1_0000_0000_0000) by (bit_vector);
        }
        self.state = next;
        let shift: u64 = 48 - bits;
        let r: u64 = next >> shift;
        proof {
            assert(next >> shift < 0x1_0000_0000 && next >> shift < (1u64 << ((48 - shift)
                as u64))) by (bit_vector)
                requires
                    next < 0x1_0000_0000_0000,
                    16 <= shift < 48,
            ;
        }
        r
    }

    pub fn next_i32(&mut self) -> (r: i32)
        requires
            old(self).wf(),
        ensures
            r == spec_u64_to_i32(spec_lcg_bits(old(self).state, 32)),
            final(self).state == spec_lcg_step(old(self).state),
            final(self).wf(),
    {
        let v: u64 = self.next_bits(32);
        u64_to_i32(v)
    }

    pub fn next_i64(&mut self) -> (r: i64)
        requires
            old(self).wf(),
        ensures
            r == spec_lcg_i64(old(self).state),
            final(self).state == spec_lcg_skip(old(self).state, 2),
            final(self).wf(),
    {
        proof {
            let s0 = old(self).state;
            assert(spec_lcg_skip(s0, 2) == spec_lcg_skip(spec_lcg_step(s0), 1));
            assert(spec_lcg_skip(spec_lcg_step(s0), 1) == spec_lcg_skip(
                spec_lcg_step(spec_lcg_step(s0)),
                0,
            ));
        }
        let hi: i32 = self.next_i32();
        let lo: i32 = self.next_i32();
        (hi as i64).wrapping_shl(32).wrapping_add(lo as i64)
    }

    /// Numerator over 2^53 of the unit-interval double: 26 high bits from one
    /// draw joined with 27 from the next.
    pub fn next_f64_numerator(&mut self) -> (r: u64)
        requires
            old(self).wf(),
        ensures
            ({
                let s1 = spec_lcg_step(old(self).state);
                let a = spec_lcg_bits(old(self).state, 26);
                let b = spec_lcg_bits(s1, 27);
                &&& r == a * 0x800_0000 + b
                &&& final(self).state == spec_lcg_step(s1)
            }),
            r < 0x20_0000_0000_0000,
            final(self).wf(),
    {
        let a: u64 = self.next_bits(26);
        let b: u64 = self.next_bits(27);
        proof {
            assert((1u64 << 26u64) == 0x400_0000u64 && (1u64 << 27u64) == 0x800_0000u64)
                by (bit_vector);
        }
        a * 0x800_0000 + b
    }

    /// Bounded draw: an exact multiply-shift for power-of-two bounds, and
    /// the classical remainder method with overflow rejection otherwise,
    /// pinned draw for draw to its specification mirror.
    #[verifier::rlimit(50)]
    pub fn next_bounded_i32(&mut self, bound: i32) -> (r: i32)
        requires
            old(self).wf(),
            bound > 0,
        ensures
            0 <= r < bound,
            r == spec_lcg_bounded(old(self).state, bound, BOUNDED_DRAW_FUEL as nat).0,
            final(self).state == spec_lcg_bounded(old(self).state, bound, BOUNDED_DRAW_FUEL
                as nat).1,
            final(self).wf(),
    {
        let ghost start = *self;
        proof {
            assert((1u64 << 31u64) == 0x8000_0000u64) by (bit_vector);
        }
        if (bound & (bound - 1)) == 0 {
            let bits: u64 = self.next_bits(31);
            proof {
                lemma_pow2_product_bound(bound, bits);
            }
            let prod: u64 = (bound as u64) * bits;
            proof {
                assert(prod >> 31u64 == prod / 0x8000_0000) by (bit_vector);
                assert(prod / 0x8000_0000 < bound as u64) by (nonlinear_arith)
                    requires
                        prod == (bound as u64) * bits,
                        bits < 0x8000_0000,
                        bound > 0,
                ;
            }
            return (prod >> 31u64) as i32;
        }
        let mut bits: u64 = self.next_bits(31);
        let mut val: u64 = bits % (bound as u64);
        let mut fuel: u64 = BOUNDED_DRAW_FUEL;
        while bits + (bound as u64 - 1) >= val + 0x8000_0000 && fuel > 0
            invariant
                self.wf(),
                0 < bound,
                (bound & ((bound - 1) as i32)) != 0,
                bits < 0x8000_0000,
                val == bits % (bound as u64),
                spec_lcg_bounded(start.state, bound, BOUNDED_DRAW_FUEL as nat) == (if bits + (
                bound as u64 - 1) < val + 0x8000_0000 || fuel == 0 {
                    ((val as i32, self.state))
                } else {
                    spec_lcg_bounded(self.state, bound, (fuel - 1) as nat)
                }),
            decreases fuel,
        {
            fuel = fuel - 1;
            let ghost mid = self.state;
            bits = self.next_bits(31);
            val = bits % (bound as u64);
            proof {
                assert((1u64 << 31u64) == 0x8000_0000u64) by (bit_vector);
                assert(spec_lcg_bounded(start.state, bound, BOUNDED_DRAW_FUEL as nat)
                    == spec_lcg_bounded(mid, bound, fuel as nat));
            }
        }
        val as i32
    }

    /// Discards `count` single draws.
    pub fn skip(&mut self, count: u32)
        requires
            old(self).wf(),
        ensures
            final(self).state == spec_lcg_skip(old(self).state, count as nat),
            final(self).wf(),
    {
        let mut i: u32 = 0;
        while i < count
            invariant
                i <= count,
                self.wf(),
                spec_lcg_skip(old(self).state, count as nat) == spec_lcg_skip(
                    self.state,
                    (count - i) as nat,
                ),
            decreases count - i,
        {
            proof {
                assert(spec_lcg_skip(self.state, (count - i) as nat) == spec_lcg_skip(
                    spec_lcg_step(self.state),
                    (count - i - 1) as nat,
                ));
            }
            let _ = self.next_bits(32);
            i = i + 1;
        }
    }
}

/// The hash a Java-style string fold yields: 31 times the hash of the prefix
/// plus the last character, wrapping at 32 bits.
pub open spec fn spec_java_string_hash(s: Seq<char>) -> i32
    decreases s.len(),
{
    if s.len() == 0 {
        0i32
    } else {
        spec_java_string_hash(s.drop_last()).wrapping_mul(31).wrapping_add(
            (s.last() as u32) as i32,
        )
    }
}

/// Java-style string hash over the characters of `s`, used to derive legacy
/// named sub-streams.
pub fn java_string_hash(s: &str) -> (r: i32)
    ensures
        r == spec_java_string_hash(s@),
{
    let len: usize = s.unicode_len();
    let mut h: i32 = 0;
    let mut i: usize = 0;
    while i < len
        invariant
            i <= len,
            len == s@.len(),
            h == spec_java_string_hash(s@.take(i as int)),
        decreases len - i,
    {
        let c: char = s.get_char(i);
        let code: u32 = c as u32;
        h = h.wrapping_mul(31).wrapping_add(code as i32);
        proof {
            assert(s@.take(i + 1).drop_last() =~= s@.take(i as int));
            assert(s@.take(i + 1).last() == s@[i as int]);
        }
        i = i + 1;
    }
    proof {
        assert(s@.take(len as int) =~= s@);
    }
    h
}

/// Derives independent xoroshiro streams from a parent stream's 128-bit key.
#[derive(Clone, Copy, Debug, PartialEq, Eq, Structural)]
pub struct XoroshiroSplitter {
    pub lo: u64,
    pub hi: u64,
}

/// The state a named xoroshiro sub-stream starts from: the MD5 digest of the
/// name, read as two big-endian words, each folded into the splitter's key.
pub open spec fn spec_xoro_split_string(sp: XoroshiroSplitter, name: Seq<char>) -> Xoroshiro {
    let digest = md5_of(vstd::utf8::encode_utf8(name));
    spec_xoro_new(
        spec_u64_from_be(digest.take(8)) ^ sp.lo,
        spec_u64_from_be(digest.skip(8)) ^ sp.hi,
    )
}

impl XoroshiroSplitter {
    /// Starts the independent stream named `name`.
    pub fn split_string(&self, name: &str) -> (r: Xoroshiro)
        ensures
            r == spec_xoro_split_string(*self, name@),
    {
        let digest: Vec<u8> = md5_digest(name.as_bytes());
        let lo: u64 = u64_from_be(&digest, 0) ^ self.lo;
        let hi: u64 = u64_from_be(&digest, 8) ^ self.hi;
        proof {
            assert(digest@.subrange(0, 8) =~= digest@.take(8));
            assert(digest@.subrange(8, 16) =~= digest@.skip(8));
        }
        Xoroshiro::new(lo, hi)
    }
}

/// Derives legacy streams from a parent stream's 64-bit key.
#[derive(Clone, Copy, Debug, PartialEq, Eq, Structural)]
pub struct LegacySplitter {
    pub seed: u64,
}

/// The state a named legacy sub-stream starts from: the Java-style hash of
/// the name, sign-extended and folded into the splitter's key.
pub open spec fn spec_legacy_split_string(sp: LegacySplitter, name: Seq<char>) -> u64 {
    spec_lcg_init(spec_i64_to_u64(spec_java_string_hash(name) as i64) ^ sp.seed)
}

impl LegacySplitter {
    /// Starts the stream named `name`.
    pub fn split_string(&self, name: &str) -> (r: LegacyRand)
        ensures
            r.state == spec_legacy_split_string(*self, name@),
            r.wf(),
    {
        let hash: i32 = java_string_hash(name);
        let word: u64 = i64_to_u64(hash as i64);
        LegacyRand::from_seed(word ^ self.seed)
    }
}

/// A seeded generator of either family. The families are never mixed within
/// one derivation chain: a splitter hands back a generator of its own kind.
#[derive(Clone, Copy, Debug, PartialEq, Eq, Structural)]
pub enum RandomGenerator {
    Xoroshiro(Xoroshiro),
    Legacy(LegacyRand),
}

/// A splitter of either family.
#[derive(Clone, Copy, Debug, PartialEq, Eq, Structural)]
pub enum RandomDeriver {
    Xoroshiro(XoroshiroSplitter),
    Legacy(LegacySplitter),
}

/// Numerator over 2^53 of the next unit-interval double of a generator.
pub open spec fn spec_gen_f64_num(g: RandomGenerator) -> u64 {
    match g {
        RandomGenerator::Xoroshiro(x) => spec_xoro_value(x) >> 11u64,
        RandomGenerator::Legacy(l) => (spec_lcg_bits(l.state, 26) * 0x800_0000 + spec_lcg_bits(
            spec_lcg_step(l.state),
            27,
        )) as u64,
    }
}

/// The generator state after drawing one unit-interval double.
pub open spec fn spec_gen_f64_step(g: RandomGenerator) -> RandomGenerator {
    match g {
        RandomGenerator::Xoroshiro(x) => RandomGenerator::Xoroshiro(spec_xoro_step(x)),
        RandomGenerator::Legacy(l) => RandomGenerator::Legacy(
            LegacyRand { state: spec_lcg_step(spec_lcg_step(l.state)) },
        ),
    }
}

/// One bounded draw of a generator: the result and the advanced generator.
pub open spec fn spec_gen_bounded(g: RandomGenerator, bound: i32) -> (i32, RandomGenerator)
    recommends
        bound > 0,
{
    match g {
        RandomGenerator::Xoroshiro(x) => {
            let (r, x2) = spec_xoro_bounded(x, bound, BOUNDED_DRAW_FUEL as nat);
            (r, RandomGenerator::Xoroshiro(x2))
        },
        RandomGenerator::Legacy(l) => {
            let (r, s2) = spec_lcg_bounded(l.state, bound, BOUNDED_DRAW_FUEL as nat);
            (r, RandomGenerator::Legacy(LegacyRand { state: s2 }))
        },
    }
}

/// The generator state after `n` discarded single draws.
pub open spec fn spec_gen_skip(g: RandomGenerator, n: nat) -> RandomGenerator {
    match g {
        RandomGenerator::Xoroshiro(x) => RandomGenerator::Xoroshiro(spec_xoro_skip(x, n)),
        RandomGenerator::Legacy(l) => RandomGenerator::Legacy(
            LegacyRand { state: spec_lcg_skip(l.state, n) },
        ),
    }
}

/// The deriver a generator splits off: two words seed a xoroshiro splitter,
/// one signed word seeds a legacy splitter.
pub open spec fn spec_deriver_of(g: RandomGenerator) -> RandomDeriver {
    match g {
        RandomGenerator::Xoroshiro(x) => RandomDeriver::Xoroshiro(
            XoroshiroSplitter { lo: spec_xoro_value(x), hi: spec_xoro_value(spec_xoro_step(x)) },
        ),
        RandomGenerator::Legacy(l) => RandomDeriver::Legacy(
            LegacySplitter { seed: spec_i64_to_u64(spec_lcg_i64(l.state)) },
        ),
    }
}

/// The generator state after splitting off its deriver: two draws consumed
/// in either family.
pub open spec fn spec_gen_after_splitter(g: RandomGenerator) -> RandomGenerator {
    spec_gen_skip(g, 2)
}

/// The named sub-stream a deriver starts, in its own family.
pub open spec fn spec_split_stream(d: RandomDeriver, name: Seq<char>) -> RandomGenerator {
    match d {
        RandomDeriver::Xoroshiro(sp) => RandomGenerator::Xoroshiro(
            spec_xoro_split_string(sp, name),
        ),
        RandomDeriver::Legacy(sp) => RandomGenerator::Legacy(
            LegacyRand { state: spec_legacy_split_string(sp, name) },
        ),
    }
}

impl RandomGenerator {
    pub open spec fn wf(self) -> bool {
        match self {
            RandomGenerator::Xoroshiro(_) => true,
            RandomGenerator::Legacy(l) => l.wf(),
        }
    }

    pub fn next_i32(&mut self) -> (r: i32)
        requires
            old(self).wf(),
        ensures
            final(self).wf(),
            match *old(self) {
                RandomGenerator::Xoroshiro(x) => r == spec_u64_to_i32(spec_xoro_value(x))
                    && *final(self) == RandomGenerator::Xoroshiro(spec_xoro_step(x)),
                RandomGenerator::Legacy(l) => r == spec_u64_to_i32(spec_lcg_bits(l.state, 32))
                    && *final(self) == (RandomGenerator::Legacy(
                    LegacyRand { state: spec_lcg_step(l.state) },
                )),
            },
    {
        match self {
            RandomGenerator::Xoroshiro(x) => x.next_i32(),
            RandomGenerator::Legacy(l) => l.next_i32(),
        }
    }

    /// Numerator over 2^53 of the next unit-interval double.
    pub fn next_f64_numerator(&mut self) -> (r: u64)
        requires
            old(self).wf(),
        ensures
            r == spec_gen_f64_num(*old(self)),
            r < 0x20_0000_0000_0000,
            *final(self) == spec_gen_f64_step(*old(self)),
            final(self).wf(),
    {
        match self {
            RandomGenerator::Xoroshiro(x) => x.next_f64_numerator(),
            RandomGenerator::Legacy(l) => l.next_f64_numerator(),
        }
    }

    /// Draw in `[0, bound)`, pinned to the family's bounded-draw mirror.
    pub fn next_bounded_i32(&mut self, bound: i32) -> (r: i32)
        requires
            old(self).wf(),
            bound > 0,
        ensures
            0 <= r < bound,
            r == spec_gen_bounded(*old(self), bound).0,
            *final(self) == spec_gen_bounded(*old(self), bound).1,
            final(self).wf(),
    {
        match self {
            RandomGenerator::Xoroshiro(x) => x.next_bounded_i32(bound),
            RandomGenerator::Legacy(l) => l.next_bounded_i32(bound),
        }
    }

    /// Discards `count` single draws.
    pub fn skip(&mut self, count: u32)
        requires
            old(self).wf(),
        ensures
            *final(self) == spec_gen_skip(*old(self), count as nat),
            final(self).wf(),
    {
        match self {
            RandomGenerator::Xoroshiro(x) => x.skip(count),
            RandomGenerator::Legacy(l) => l.skip(count),
        }
    }

    /// Splits off a deriver of named sub-streams, consuming the draws that
    /// seed it.
    pub fn next_splitter(&mut self) -> (r: RandomDeriver)
        requires
            old(self).wf(),
        ensures
            r == spec_deriver_of(*old(self)),
            *final(self) == spec_gen_after_splitter(*old(self)),
            final(self).wf(),
    {
        proof {
            match *old(self) {
                RandomGenerator::Xoroshiro(x) => {
                    assert(spec_xoro_skip(x, 2) == spec_xoro_skip(spec_xoro_step(x), 1));
                    assert(spec_xoro_skip(spec_xoro_step(x), 1) == spec_xoro_skip(
                        spec_xoro_step(spec_xoro_step(x)),
                        0,
                    ));
                },
                RandomGenerator::Legacy(_) => {},
            }
        }
        match self {
            RandomGenerator::Xoroshiro(x) => {
                let lo: u64 = x.next_u64();
                let hi: u64 = x.next_u64();
                RandomDeriver::Xoroshiro(XoroshiroSplitter { lo, hi })
            },
            RandomGenerator::Legacy(l) => {
                let seed: i64 = l.next_i64();
                RandomDeriver::Legacy(LegacySplitter { seed: i64_to_u64(seed) })
            },
        }
    }
}

impl RandomDeriver {
    /// Starts the stream named `name`, in this deriver's own family.
    pub fn split_string(&self, name: &str) -> (r: RandomGenerator)
        ensures
            r == spec_split_stream(*self, name@),
            r.wf(),
    {
        match self {
            RandomDeriver::Xoroshiro(sp) => RandomGenerator::Xoroshiro(sp.split_string(name)),
            RandomDeriver::Legacy(sp) => RandomGenerator::Legacy(sp.split_string(name)),
        }
    }
}


/// Determinism of the seeded generators: equal seeds give bit-identical
/// states, and equal states give bit-identical draws, in both families.
pub proof fn lemma_seeded_determinism(seed: u64, a: Xoroshiro, b: Xoroshiro)
    requires
        a == spec_xoro_from_seed(seed),
        b == spec_xoro_from_seed(seed),
    ensures
        a == b,
        spec_xoro_value(a) == spec_xoro_value(b),
        spec_xoro_step(a) == spec_xoro_step(b),
{
}

/// Power-of-two product bound used by the exact branch above.
proof fn lemma_pow2_product_bound(bound: i32, bits: u64)
    by (nonlinear_arith)
    requires
        0 < bound,
        bits < 0x8000_0000,
    ensures
        (bound as u64) * bits < 0x8000_0000 * 0x8000_0000,
        bound * bits / 0x8000_0000 < bound,
{
}

} // verus!
