//! Cryptographic digests the generation pipeline relies on: SHA-256 turns a
//! world seed into the hashed seed the protocol shares, and MD5 turns a
//! stream name into the 128-bit constant that derives a named sub-stream.

use vstd::prelude::*;

use crate::rng::spec_u64_to_i64;

verus! {

/// The SHA-256 digest of a byte sequence, 32 bytes long.
pub uninterp spec fn sha256_of(data: Seq<u8>) -> Seq<u8>;

/// The MD5 digest of a byte sequence, 16 bytes long.
pub uninterp spec fn md5_of(data: Seq<u8>) -> Seq<u8>;

/// Relies on sha2::Sha256: the SHA-256 digest of the input bytes, which
/// depends on those bytes alone and is 32 bytes long.
#[verifier::external_body]
fn sha256_digest(data: &[u8]) -> (r: Vec<u8>)
    ensures
        r@ == sha256_of(data@),
        r@.len() == 32,
{
    let mut hasher = <sha2::Sha256 as sha2::Digest>::new();
    sha2::Digest::update(&mut hasher, data);
    sha2::Digest::finalize(hasher).to_vec()
}

/// Relies on md5::Md5: the MD5 digest of the input bytes, which depends on
/// those bytes alone and is 16 bytes long.
#[verifier::external_body]
pub(crate) fn md5_digest(data: &[u8]) -> (r: Vec<u8>)
    ensures
        r@ == md5_of(data@),
        r@.len() == 16,
{
    let mut hasher = <md5::Md5 as md5::Digest>::new();
    md5::Digest::update(&mut hasher, data);
    md5::Digest::finalize(hasher).to_vec()
}

/// The eight little-endian bytes of a 64-bit word, least significant first.
pub open spec fn spec_u64_le_bytes(v: u64) -> Seq<u8> {
    seq![
        (v % 0x100) as u8,
        (v / 0x100 % 0x100) as u8,
        (v / 0x1_0000 % 0x100) as u8,
        (v / 0x100_0000 % 0x100) as u8,
        (v / 0x1_0000_0000 % 0x100) as u8,
        (v / 0x100_0000_0000 % 0x100) as u8,
        (v / 0x1_0000_0000_0000 % 0x100) as u8,
        (v / 0x100_0000_0000_0000 % 0x100) as u8,
    ]
}

/// The word read back from eight little-endian bytes.
pub open spec fn spec_u64_from_le(s: Seq<u8>) -> u64
    recommends
        s.len() == 8,
{
    (s[0] + s[1] * 0x100 + s[2] * 0x1_0000 + s[3] * 0x100_0000 + s[4] * 0x1_0000_0000 + s[5]
        * 0x100_0000_0000 + s[6] * 0x1_0000_0000_0000 + s[7] * 0x100_0000_0000_0000) as u64
}

/// The word read from eight big-endian bytes, most significant first.
pub open spec fn spec_u64_from_be(s: Seq<u8>) -> u64
    recommends
        s.len() == 8,
{
    (s[7] + s[6] * 0x100 + s[5] * 0x1_0000 + s[4] * 0x100_0000 + s[3] * 0x1_0000_0000 + s[2]
        * 0x100_0000_0000 + s[1] * 0x1_0000_0000_0000 + s[0] * 0x100_0000_0000_0000) as u64
}

pub(crate) fn u64_le_bytes(v: u64) -> (r: Vec<u8>)
    ensures
        r@ == spec_u64_le_bytes(v),
{
    let mut out: Vec<u8> = Vec::new();
    out.push((v % 0x100) as u8);
    out.push((v / 0x100 % 0x100) as u8);
    out.push((v / 0x1_0000 % 0x100) as u8);
    out.push((v / 0x100_0000 % 0x100) as u8);
    out.push((v / 0x1_0000_0000 % 0x100) as u8);
    out.push((v / 0x100_0000_0000 % 0x100) as u8);
    out.push((v / 0x1_0000_0000_0000 % 0x100) as u8);
    out.push((v / 0x100_0000_0000_0000 % 0x100) as u8);
    proof {
        assert(out@ =~= spec_u64_le_bytes(v));
    }
    out
}

/// Reads the eight bytes starting at `at` as a little-endian word.
pub(crate) fn u64_from_le(bytes: &Vec<u8>, at: usize) -> (r: u64)
    requires
        at + 8 <= bytes@.len(),
    ensures
        r == spec_u64_from_le(bytes@.subrange(at as int, at + 8)),
{
    // Fixing the length as a machine word bounds the eight indices below.
    let n: usize = bytes.len();
    let b0: u64 = bytes[at] as u64;
    let b1: u64 = bytes[at + 1] as u64;
    let b2: u64 = bytes[at + 2] as u64;
    let b3: u64 = bytes[at + 3] as u64;
    let b4: u64 = bytes[at + 4] as u64;
    let b5: u64 = bytes[at + 5] as u64;
    let b6: u64 = bytes[at + 6] as u64;
    let b7: u64 = bytes[at + 7] as u64;
    b0 + b1 * 0x100 + b2 * 0x1_0000 + b3 * 0x100_0000 + b4 * 0x1_0000_0000 + b5
        * 0x100_0000_0000 + b6 * 0x1_0000_0000_0000 + b7 * 0x100_0000_0000_0000
}

/// Reads the eight bytes starting at `at` as a big-endian word.
pub(crate) fn u64_from_be(bytes: &Vec<u8>, at: usize) -> (r: u64)
    requires
        at + 8 <= bytes@.len(),
    ensures
        r == spec_u64_from_be(bytes@.subrange(at as int, at + 8)),
{
    // Fixing the length as a machine word bounds the eight indices below.
    let n: usize = bytes.len();
    let b0: u64 = bytes[at] as u64;
    let b1: u64 = bytes[at + 1] as u64;
    let b2: u64 = bytes[at + 2] as u64;
    let b3: u64 = bytes[at + 3] as u64;
    let b4: u64 = bytes[at + 4] as u64;
    let b5: u64 = bytes[at + 5] as u64;
    let b6: u64 = bytes[at + 6] as u64;
    let b7: u64 = bytes[at + 7] as u64;
    b7 + b6 * 0x100 + b5 * 0x1_0000 + b4 * 0x100_0000 + b3 * 0x1_0000_0000 + b2
        * 0x100_0000_0000 + b1 * 0x1_0000_0000_0000 + b0 * 0x100_0000_0000_0000
}

/// The hashed world seed: the first eight bytes of the SHA-256 digest of the
/// seed's little-endian bytes, read back as a little-endian signed word.
pub open spec fn spec_hash_seed(seed: u64) -> i64 {
    spec_u64_to_i64(spec_u64_from_le(sha256_of(spec_u64_le_bytes(seed)).take(8)))
}

/// Hashes a world seed into the value shared with the protocol layer.
pub fn hash_seed(seed: u64) -> (r: i64)
    ensures
        r == spec_hash_seed(seed),
{
    let bytes: Vec<u8> = u64_le_bytes(seed);
    let digest: Vec<u8> = sha256_digest(bytes.as_slice());
    let word: u64 = u64_from_le(&digest, 0);
    proof {
        assert(digest@.subrange(0, 8) =~= sha256_of(spec_u64_le_bytes(seed)).take(8));
    }
    if word < 0x8000_0000_0000_0000 {
        word as i64
    } else {
        let reduced: u64 = word - 0x8000_0000_0000_0000;
        reduced as i64 + i64::MIN
    }
}

} // verus!
