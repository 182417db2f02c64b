//! Multi-octave sampler construction.
//!
//! An octave stack owns one Perlin sampler per active octave. Legacy seeding
//! draws one base sampler unconditionally and then walks the octaves from
//! highest to lowest, paying every inactive octave with a fixed 262-draw skip
//! so the stream stays aligned; modern seeding derives an independent named
//! sub-stream per octave. Amplitudes are kept as activity flags: the actual
//! floating-point weights of the stack are a pure function of the octave
//! count and position, and belong to the samplers' floating-point callers.

use vstd::prelude::*;
use vstd::string::StringExecFns;

use crate::perlin::{spec_is_perlin_of, spec_perlin_rng, PerlinNoiseSampler};
use crate::rng::{
    spec_deriver_of, spec_gen_after_splitter, spec_gen_skip, spec_split_stream, RandomDeriver,
    RandomGenerator,
};
use crate::strutil::{push_udigits, spec_udigits};

verus! {

/// Least element of a non-empty sequence.
pub open spec fn spec_seq_min(s: Seq<i32>) -> int
    decreases s.len(),
{
    if s.len() <= 1 {
        if s.len() == 1 {
            s[0] as int
        } else {
            0
        }
    } else if s.last() < spec_seq_min(s.drop_last()) {
        s.last() as int
    } else {
        spec_seq_min(s.drop_last())
    }
}

/// Greatest element of a non-empty sequence.
pub open spec fn spec_seq_max(s: Seq<i32>) -> int
    decreases s.len(),
{
    if s.len() <= 1 {
        if s.len() == 1 {
            s[0] as int
        } else {
            0
        }
    } else if s.last() > spec_seq_max(s.drop_last()) {
        s.last() as int
    } else {
        spec_seq_max(s.drop_last())
    }
}

proof fn lemma_min_max_bound(s: Seq<i32>, idx: int)
    requires
        0 <= idx < s.len(),
    ensures
        spec_seq_min(s) <= s[idx] <= spec_seq_max(s),
    decreases s.len(),
{
    if s.len() > 1 {
        if idx < s.len() - 1 {
            lemma_min_max_bound(s.drop_last(), idx);
        }
    }
}

/// Turns a sparse set of octave indices into the dense activity mask the
/// constructor consumes: the least index, and one flag per index from the
/// least to the greatest, true exactly for the indices present.
pub fn calculate_amplitudes(octaves: &Vec<i32>) -> (r: (i32, Vec<bool>))
    requires
        octaves@.len() > 0,
        spec_seq_max(octaves@) - spec_seq_min(octaves@) < 0x7FFF_FFFF,
    ensures
        r.0 == spec_seq_min(octaves@),
        r.1@.len() == spec_seq_max(octaves@) - spec_seq_min(octaves@) + 1,
        forall|k: int|
            0 <= k < r.1@.len() ==> (r.1@[k] <==> octaves@.contains((spec_seq_min(octaves@) + k)
                as i32)),
{
    let n: usize = octaves.len();
    let mut low: i32 = octaves[0];
    let mut high: i32 = octaves[0];
    let mut idx: usize = 1;
    proof {
        assert(octaves@.take(1) =~= seq![octaves@[0]]);
    }
    while idx < n
        invariant
            1 <= idx <= n,
            n == octaves@.len(),
            low == spec_seq_min(octaves@.take(idx as int)),
            high == spec_seq_max(octaves@.take(idx as int)),
        decreases n - idx,
    {
        let v: i32 = octaves[idx];
        proof {
            assert(octaves@.take(idx + 1).drop_last() =~= octaves@.take(idx as int));
            assert(octaves@.take(idx + 1).last() == octaves@[idx as int]);
        }
        if v < low {
            low = v;
        }
        if v > high {
            high = v;
        }
        idx = idx + 1;
    }
    proof {
        assert(octaves@.take(n as int) =~= octaves@);
    }

    let span: i64 = high as i64 - low as i64 + 1;
    let len: usize = span as usize;
    let mut mask: Vec<bool> = Vec::new();
    let mut fill: usize = 0;
    while fill < len
        invariant
            fill <= len,
            mask@.len() == fill,
            forall|k: int| 0 <= k < fill ==> !mask@[k],
        decreases len - fill,
    {
        mask.push(false);
        fill = fill + 1;
    }

    let mut idx: usize = 0;
    while idx < n
        invariant
            idx <= n,
            n == octaves@.len(),
            low == spec_seq_min(octaves@),
            high == spec_seq_max(octaves@),
            mask@.len() == high - low + 1,
            forall|k: int|
                0 <= k < mask@.len() ==> (mask@[k] <==> octaves@.take(idx as int).contains(
                    (low + k) as i32,
                )),
        decreases n - idx,
    {
        let v: i32 = octaves[idx];
        proof {
            lemma_min_max_bound(octaves@, idx as int);
            assert(octaves@.take(idx + 1) =~= octaves@.take(idx as int).push(
                octaves@[idx as int],
            ));
        }
        let slot: usize = (v as i64 - low as i64) as usize;
        let ghost before = mask@;
        vstd::pervasive::VecAdditionalExecFns::set(&mut mask, slot, true);
        proof {
            assert forall|k: int| 0 <= k < mask@.len() implies (mask@[k]
                <==> octaves@.take(idx + 1).contains((low + k) as i32)) by {
                let x = (low + k) as i32;
                if k == slot as int {
                    assert(octaves@.take(idx + 1)[idx as int] == v);
                    assert(x == v);
                    assert(octaves@.take(idx + 1).contains(x));
                } else {
                    assert(mask@[k] == before[k]);
                    if octaves@.take(idx + 1).contains(x) {
                        let w = choose|w: int|
                            0 <= w < idx + 1 && #[trigger] octaves@.take(idx + 1)[w] == x;
                        if w < idx {
                            assert(octaves@.take(idx as int)[w] == x);
                            assert(octaves@.take(idx as int).contains(x));
                        }
                    }
                    if octaves@.take(idx as int).contains(x) {
                        let w = choose|w: int|
                            0 <= w < idx && #[trigger] octaves@.take(idx as int)[w] == x;
                        assert(octaves@.take(idx + 1)[w] == x);
                    }
                }
            }
        }
        idx = idx + 1;
    }
    proof {
        assert(octaves@.take(n as int) =~= octaves@);
    }
    (low, mask)
}

/// One active octave: its position in the amplitude mask and its sampler.
pub struct OctaveSampler {
    pub index: usize,
    pub sampler: PerlinNoiseSampler,
}

/// The octave stack: the active octaves in ascending mask position.
pub struct OctavePerlinNoiseSampler {
    pub first_octave: i32,
    pub samplers: Vec<OctaveSampler>,
}

/// Whether the mask position `k` receives a sampler. Legacy seeding reaches
/// only positions up to `j = -first_octave`; modern seeding reaches them all.
pub open spec fn spec_octave_present(amplitudes: Seq<bool>, j: int, legacy: bool, k: int) -> bool {
    &&& 0 <= k < amplitudes.len()
    &&& amplitudes[k]
    &&& (legacy ==> k <= j)
}

/// The generator movement one legacy octave position costs: a full Perlin
/// construction when the position is active, a 262-draw skip otherwise.
pub open spec fn spec_legacy_octave_step(
    g: RandomGenerator,
    amplitudes: Seq<bool>,
    k: int,
) -> RandomGenerator {
    if 0 <= k < amplitudes.len() && amplitudes[k] {
        spec_perlin_rng(g)
    } else {
        spec_gen_skip(g, 262)
    }
}

/// The generator state after walking the legacy octaves `hi - 1` down to
/// `lo`, starting from `g`: the highest position is paid first.
pub open spec fn spec_legacy_walk(
    g: RandomGenerator,
    amplitudes: Seq<bool>,
    hi: int,
    lo: int,
) -> RandomGenerator
    decreases hi - lo,
{
    if hi <= lo {
        g
    } else {
        spec_legacy_walk(
            spec_legacy_octave_step(g, amplitudes, hi - 1),
            amplitudes,
            hi - 1,
            lo,
        )
    }
}

/// Peeling the walk at its low end: walking down to `lo` is one octave step
/// applied to the walk down to `lo + 1`.
proof fn lemma_legacy_walk_peel(g: RandomGenerator, amplitudes: Seq<bool>, hi: int, lo: int)
    requires
        lo < hi,
    ensures
        spec_legacy_walk(g, amplitudes, hi, lo) == spec_legacy_octave_step(
            spec_legacy_walk(g, amplitudes, hi, lo + 1),
            amplitudes,
            lo,
        ),
    decreases hi - lo,
{
    let g2 = spec_legacy_octave_step(g, amplitudes, hi - 1);
    assert(spec_legacy_walk(g, amplitudes, hi, lo) == spec_legacy_walk(g2, amplitudes, hi - 1, lo));
    if lo + 1 < hi {
        lemma_legacy_walk_peel(g2, amplitudes, hi - 1, lo);
        assert(spec_legacy_walk(g, amplitudes, hi, lo + 1) == spec_legacy_walk(
            g2,
            amplitudes,
            hi - 1,
            lo + 1,
        ));
    } else {
        assert(spec_legacy_walk(g2, amplitudes, hi - 1, lo) == g2);
        assert(spec_legacy_walk(g, amplitudes, hi, lo + 1) == g);
    }
}

impl OctavePerlinNoiseSampler {
    pub open spec fn wf(self) -> bool {
        forall|t: int| 0 <= t < self.samplers@.len() ==> (#[trigger] self.samplers@[t]).sampler.wf()
    }

    /// Which mask positions hold a sampler, in ascending order.
    pub open spec fn spec_positions_ok(self, amplitudes: Seq<bool>, legacy: bool) -> bool {
        let j = -self.first_octave as int;
        &&& forall|t: int|
            0 <= t < self.samplers@.len() ==> spec_octave_present(
                amplitudes,
                j,
                legacy,
                (#[trigger] self.samplers@[t]).index as int,
            )
        &&& forall|t1: int, t2: int|
            0 <= t1 < t2 < self.samplers@.len() ==> (#[trigger] self.samplers@[t1]).index < (
            #[trigger] self.samplers@[t2]).index
        &&& forall|k: int|
            spec_octave_present(amplitudes, j, legacy, k) ==> exists|t: int|
                0 <= t < self.samplers@.len() && (#[trigger] self.samplers@[t]).index == k
    }

    /// Which stream seeded which sampler. In legacy mode the base sampler
    /// at position `j` is the construction from the incoming generator, and
    /// every lower sampler is the construction from the walk that paid each
    /// higher position with a construction or a 262-draw skip. In modern
    /// mode every sampler is the construction from the sub-stream named
    /// after its octave, derived from the generator's splitter.
    pub open spec fn spec_streams_ok(
        self,
        g0: RandomGenerator,
        amplitudes: Seq<bool>,
        legacy: bool,
    ) -> bool {
        let j = -self.first_octave as int;
        if legacy {
            let g1 = spec_perlin_rng(g0);
            forall|t: int|
                0 <= t < self.samplers@.len() ==> {
                    let oct = #[trigger] self.samplers@[t];
                    if oct.index == j {
                        spec_is_perlin_of(oct.sampler, g0)
                    } else {
                        spec_is_perlin_of(
                            oct.sampler,
                            spec_legacy_walk(g1, amplitudes, j, oct.index + 1),
                        )
                    }
                }
        } else {
            forall|t: int|
                0 <= t < self.samplers@.len() ==> {
                    let oct = #[trigger] self.samplers@[t];
                    spec_is_perlin_of(
                        oct.sampler,
                        spec_split_stream(
                            spec_deriver_of(g0),
                            spec_octave_name(self.first_octave + oct.index as int),
                        ),
                    )
                }
        }
    }

    /// Builds the stack, consuming the seeding generator in the exact
    /// reference order: legacy mode pays one base sampler and one 262-draw
    /// skip per inactive octave from highest to lowest; modern mode derives
    /// one named sub-stream per active octave.
    pub fn new(
        random: &mut RandomGenerator,
        first_octave: i32,
        amplitudes: &Vec<bool>,
        legacy: bool,
    ) -> (r: Self)
        requires
            old(random).wf(),
            -0x7FFF_FFFF <= first_octave,
            amplitudes@.len() < 0x8000_0000,
            first_octave + amplitudes@.len() < 0x8000_0000,
        ensures
            r.wf(),
            final(random).wf(),
            r.first_octave == first_octave,
            r.spec_positions_ok(amplitudes@, legacy),
            r.spec_streams_ok(*old(random), amplitudes@, legacy),
            legacy ==> *final(random) == spec_legacy_walk(
                spec_perlin_rng(*old(random)),
                amplitudes@,
                -first_octave as int,
                0,
            ),
            !legacy ==> *final(random) == spec_gen_after_splitter(*old(random)),
    {
        let i: usize = amplitudes.len();
        let j: i32 = -first_octave;
        let ghost jg = j as int;

        if legacy {
            let ghost g0 = *old(random);
            let base: PerlinNoiseSampler = PerlinNoiseSampler::new(random);
            let ghost g1 = spec_perlin_rng(g0);
            let mut desc: Vec<OctaveSampler> = Vec::new();
            if j >= 0 && (j as usize) < i && amplitudes[j as usize] {
                desc.push(OctaveSampler { index: j as usize, sampler: base });
            }
            let mut kx: usize = if j > 0 {
                j as usize
            } else {
                0
            };
            proof {
                assert forall|k: int|
                    spec_octave_present(amplitudes@, jg, legacy, k) && k >= kx implies exists|t: int|
                        0 <= t < desc@.len() && (#[trigger] desc@[t]).index == k by {
                    assert(k == jg);
                    assert(desc@[0].index == k);
                }
            }
            while kx > 0
                invariant
                    legacy,
                    old(random).wf(),
                    random.wf(),
                    g0 == *old(random),
                    g1 == spec_perlin_rng(g0),
                    *random == spec_legacy_walk(g1, amplitudes@, jg, kx as int),
                    jg > 0 ==> kx <= jg,
                    jg <= 0 ==> kx == 0,
                    i == amplitudes@.len(),
                    forall|t: int|
                        0 <= t < desc@.len() ==> {
                            let oct = #[trigger] desc@[t];
                            if oct.index == jg {
                                spec_is_perlin_of(oct.sampler, g0)
                            } else {
                                spec_is_perlin_of(
                                    oct.sampler,
                                    spec_legacy_walk(g1, amplitudes@, jg, oct.index + 1),
                                )
                            }
                        },
                    // Entries so far: position j if active, then the active
                    // positions of kx..j in descending order.
                    forall|t: int|
                        0 <= t < desc@.len() ==> spec_octave_present(
                            amplitudes@,
                            jg,
                            legacy,
                            (#[trigger] desc@[t]).index as int,
                        ),
                    forall|t: int|
                        0 <= t < desc@.len() ==> (#[trigger] desc@[t]).index >= kx,
                    forall|t1: int, t2: int|
                        0 <= t1 < t2 < desc@.len() ==> (#[trigger] desc@[t1]).index > (
                        #[trigger] desc@[t2]).index,
                    forall|k: int|
                        spec_octave_present(amplitudes@, jg, legacy, k) && k >= kx ==> exists|t: int|
                            0 <= t < desc@.len() && (#[trigger] desc@[t]).index == k,
                    forall|t: int|
                        0 <= t < desc@.len() ==> (#[trigger] desc@[t]).sampler.wf(),
                decreases kx,
            {
                kx = kx - 1;
                let ghost prev = desc@;
                let ghost entering = *random;
                proof {
                    lemma_legacy_walk_peel(g1, amplitudes@, jg, kx as int);
                }
                if kx < i {
                    if amplitudes[kx] {
                        let s: PerlinNoiseSampler = PerlinNoiseSampler::new(random);
                        desc.push(OctaveSampler { index: kx, sampler: s });
                    } else {
                        random.skip(262);
                    }
                } else {
                    random.skip(262);
                }
                proof {
                    assert(spec_legacy_octave_step(entering, amplitudes@, kx as int) == *random);
                }
                proof {
                    assert forall|k: int|
                        spec_octave_present(amplitudes@, jg, legacy, k) && k >= kx implies exists|
                        t: int|
                            0 <= t < desc@.len() && (#[trigger] desc@[t]).index == k by {
                        if k == kx {
                            assert(desc@[desc@.len() - 1].index == k);
                        } else {
                            let t0 = choose|t0: int|
                                0 <= t0 < prev.len() && (#[trigger] prev[t0]).index == k;
                            assert(desc@[t0].index == k);
                        }
                    }
                }
            }
            let rev: Vec<OctaveSampler> = reverse_samplers(desc);
            proof {
                let l = desc@.len() as int;
                assert forall|t1: int, t2: int| 0 <= t1 < t2 < rev@.len() implies (
                #[trigger] rev@[t1]).index < (#[trigger] rev@[t2]).index by {
                    assert(rev@[t1] == desc@[l - 1 - t1]);
                    assert(rev@[t2] == desc@[l - 1 - t2]);
                    assert(desc@[l - 1 - t2].index > desc@[l - 1 - t1].index);
                }
                assert forall|k: int| spec_octave_present(amplitudes@, jg, legacy, k) implies
                exists|t: int| 0 <= t < rev@.len() && (#[trigger] rev@[t]).index == k by {
                    let t0 = choose|t0: int|
                        0 <= t0 < desc@.len() && (#[trigger] desc@[t0]).index == k;
                    assert(rev@[l - 1 - t0] == desc@[t0]);
                    assert(rev@[l - 1 - t0].index == k);
                }
                assert forall|t: int| 0 <= t < rev@.len() implies spec_octave_present(
                    amplitudes@,
                    jg,
                    legacy,
                    (#[trigger] rev@[t]).index as int,
                ) && (#[trigger] rev@[t]).sampler.wf() by {
                    assert(rev@[t] == desc@[l - 1 - t]);
                }
                assert forall|t: int| 0 <= t < rev@.len() implies {
                    let oct = #[trigger] rev@[t];
                    if oct.index == jg {
                        spec_is_perlin_of(oct.sampler, g0)
                    } else {
                        spec_is_perlin_of(
                            oct.sampler,
                            spec_legacy_walk(g1, amplitudes@, jg, oct.index + 1),
                        )
                    }
                } by {
                    assert(rev@[t] == desc@[l - 1 - t]);
                }
            }
            let result = OctavePerlinNoiseSampler { first_octave, samplers: rev };
            proof {
                let jj = -result.first_octave as int;
                assert(jj == jg);
                assert forall|k: int| spec_octave_present(amplitudes@, jj, legacy, k) implies
                exists|t: int|
                    0 <= t < result.samplers@.len() && (#[trigger] result.samplers@[t]).index
                        == k by {
                    assert(spec_octave_present(amplitudes@, jg, legacy, k));
                    let t0 = choose|t0: int|
                        0 <= t0 < rev@.len() && (#[trigger] rev@[t0]).index == k;
                    assert(result.samplers@[t0].index == k);
                }
                assert(result.spec_positions_ok(amplitudes@, legacy));
                assert(result.spec_streams_ok(g0, amplitudes@, legacy));
            }
            return result;
        } else {
            let ghost g0 = *old(random);
            let splitter: RandomDeriver = random.next_splitter();
            let mut asc: Vec<OctaveSampler> = Vec::new();
            let mut k: usize = 0;
            while k < i
                invariant
                    !legacy,
                    random.wf(),
                    g0 == *old(random),
                    splitter == spec_deriver_of(g0),
                    *random == spec_gen_after_splitter(g0),
                    forall|t: int|
                        0 <= t < asc@.len() ==> {
                            let oct = #[trigger] asc@[t];
                            spec_is_perlin_of(
                                oct.sampler,
                                spec_split_stream(
                                    spec_deriver_of(g0),
                                    spec_octave_name(first_octave + oct.index as int),
                                ),
                            )
                        },
                    k <= i,
                    i == amplitudes@.len(),
                    i < 0x8000_0000,
                    first_octave + i < 0x8000_0000,
                    -0x7FFF_FFFF <= first_octave,
                    forall|t: int|
                        0 <= t < asc@.len() ==> spec_octave_present(
                            amplitudes@,
                            jg,
                            legacy,
                            (#[trigger] asc@[t]).index as int,
                        ),
                    forall|t: int|
                        0 <= t < asc@.len() ==> (#[trigger] asc@[t]).index < k,
                    forall|t1: int, t2: int|
                        0 <= t1 < t2 < asc@.len() ==> (#[trigger] asc@[t1]).index < (
                        #[trigger] asc@[t2]).index,
                    forall|p: int|
                        spec_octave_present(amplitudes@, jg, legacy, p) && p < k ==> exists|t: int|
                            0 <= t < asc@.len() && (#[trigger] asc@[t]).index == p,
                    forall|t: int|
                        0 <= t < asc@.len() ==> (#[trigger] asc@[t]).sampler.wf(),
                decreases i - k,
            {
                let ghost prev = asc@;
                if amplitudes[k] {
                    let l: i32 = first_octave + k as i32;
                    let name: String = octave_name(l);
                    let mut stream: RandomGenerator = splitter.split_string(name.as_str());
                    proof {
                        assert(stream == spec_split_stream(
                            spec_deriver_of(g0),
                            spec_octave_name(first_octave + k as int),
                        ));
                    }
                    let s: PerlinNoiseSampler = PerlinNoiseSampler::new(&mut stream);
                    asc.push(OctaveSampler { index: k, sampler: s });
                }
                proof {
                    assert forall|p: int|
                        spec_octave_present(amplitudes@, jg, legacy, p) && p < k + 1 implies exists|
                    t: int|
                        0 <= t < asc@.len() && (#[trigger] asc@[t]).index == p by {
                        if p == k {
                            assert(asc@[asc@.len() - 1].index == p);
                        } else {
                            let t0 = choose|t0: int|
                                0 <= t0 < prev.len() && (#[trigger] prev[t0]).index == p;
                            assert(asc@[t0].index == p);
                        }
                    }
                }
                k = k + 1;
            }
            let result = OctavePerlinNoiseSampler { first_octave, samplers: asc };
            proof {
                let jj = -result.first_octave as int;
                assert(jj == jg);
                assert forall|k: int| spec_octave_present(amplitudes@, jj, legacy, k) implies
                exists|t: int|
                    0 <= t < result.samplers@.len() && (#[trigger] result.samplers@[t]).index
                        == k by {
                    assert(spec_octave_present(amplitudes@, jg, legacy, k));
                    let t0 = choose|t0: int|
                        0 <= t0 < result.samplers@.len() && (#[trigger] result.samplers@[t0]).index
                            == k;
                    assert(result.samplers@[t0].index == k);
                }
                assert(result.spec_positions_ok(amplitudes@, legacy));
                assert(result.spec_streams_ok(g0, amplitudes@, legacy));
            }
            result
        }
    }
}

/// Reverses a vector of octave samplers.
fn reverse_samplers(v: Vec<OctaveSampler>) -> (r: Vec<OctaveSampler>)
    ensures
        r@.len() == v@.len(),
        forall|t: int| 0 <= t < v@.len() ==> r@[t] == v@[v@.len() - 1 - t],
{
    let ghost orig = v@;
    let mut v = v;
    let mut out: Vec<OctaveSampler> = Vec::new();
    while v.len() > 0
        invariant
            v@ =~= orig.take(v@.len() as int),
            out@.len() == orig.len() - v@.len(),
            forall|t: int| 0 <= t < out@.len() ==> out@[t] == orig[orig.len() - 1 - t],
        decreases v.len(),
    {
        let x: OctaveSampler = v.pop().unwrap();
        out.push(x);
        proof {
            assert(v@ =~= orig.take(v@.len() as int));
        }
    }
    out
}

/// The name of the sub-stream that seeds octave `l`: "octave_" followed by
/// the decimal form of `l`.
pub open spec fn spec_octave_name(l: int) -> Seq<char> {
    if l < 0 {
        "octave_-"@ + spec_udigits((-l) as nat)
    } else {
        "octave_"@ + spec_udigits(l as nat)
    }
}

fn octave_name(l: i32) -> (r: String)
    requires
        l > i32::MIN,
    ensures
        r@ == spec_octave_name(l as int),
{
    if l < 0 {
        let mut s: String = String::from_str("octave_-");
        let mag: u32 = (-(l as i64)) as u32;
        push_udigits(&mut s, mag);
        s
    } else {
        let mut s: String = String::from_str("octave_");
        push_udigits(&mut s, l as u32);
        s
    }
}

} // verus!
