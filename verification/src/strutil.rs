//! Small string-building helpers shared by the stream-naming and
//! text-component code.

use vstd::prelude::*;
use vstd::string::StrSliceExecFns;
use vstd::string::StringExecFns;

verus! {

/// Relies on String::push: appends exactly the given character.
#[verifier::external_body]
pub fn push_char(s: &mut String, c: char)
    ensures
        final(s)@ == old(s)@.push(c),
{
    s.push(c);
}

/// The decimal digit character for a value below ten.
pub open spec fn spec_digit_char(d: int) -> char {
    if d == 0 {
        '0'
    } else if d == 1 {
        '1'
    } else if d == 2 {
        '2'
    } else if d == 3 {
        '3'
    } else if d == 4 {
        '4'
    } else if d == 5 {
        '5'
    } else if d == 6 {
        '6'
    } else if d == 7 {
        '7'
    } else if d == 8 {
        '8'
    } else {
        '9'
    }
}

pub(crate) fn digit_char(d: u32) -> (r: char)
    requires
        d < 10,
    ensures
        r == spec_digit_char(d as int),
{
    if d == 0 {
        '0'
    } else if d == 1 {
        '1'
    } else if d == 2 {
        '2'
    } else if d == 3 {
        '3'
    } else if d == 4 {
        '4'
    } else if d == 5 {
        '5'
    } else if d == 6 {
        '6'
    } else if d == 7 {
        '7'
    } else if d == 8 {
        '8'
    } else {
        '9'
    }
}

/// The decimal form of an unsigned value, most significant digit first.
pub open spec fn spec_udigits(n: nat) -> Seq<char>
    decreases n,
{
    if n < 10 {
        seq![spec_digit_char(n as int)]
    } else {
        spec_udigits(n / 10).push(spec_digit_char((n % 10) as int))
    }
}

/// Appends the decimal form of `n`.
pub fn push_udigits(s: &mut String, n: u32)
    ensures
        final(s)@ == old(s)@ + spec_udigits(n as nat),
    decreases n,
{
    if n < 10 {
        push_char(s, digit_char(n));
        proof {
            assert(old(s)@ + spec_udigits(n as nat) =~= old(s)@.push(
                spec_digit_char(n as int),
            ));
        }
    } else {
        push_udigits(s, n / 10);
        push_char(s, digit_char(n % 10));
        proof {
            assert(old(s)@ + spec_udigits(n as nat) =~= (old(s)@ + spec_udigits(
                n as nat / 10,
            )).push(spec_digit_char((n % 10) as int)));
        }
    }
}


/// Leftmost, non-overlapping replacement of `pat` by `rep` in `s`.
pub open spec fn spec_replace(s: Seq<char>, pat: Seq<char>, rep: Seq<char>) -> Seq<char>
    recommends
        pat.len() > 0,
    decreases s.len(),
{
    if pat.len() == 0 || s.len() < pat.len() {
        s
    } else if s.take(pat.len() as int) == pat {
        rep + spec_replace(s.skip(pat.len() as int), pat, rep)
    } else {
        seq![s[0]] + spec_replace(s.drop_first(), pat, rep)
    }
}

/// Whether `pat` occurs in `s` at position `at`.
fn matches_at(s: &str, slen: usize, pat: &str, plen: usize, at: usize) -> (r: bool)
    requires
        slen == s@.len(),
        plen == pat@.len(),
        at + plen <= slen,
    ensures
        r == (s@.subrange(at as int, at + plen) == pat@),
{
    let mut k: usize = 0;
    while k < plen
        invariant
            k <= plen,
            slen == s@.len(),
            plen == pat@.len(),
            at + plen <= slen,
            forall|t: int| 0 <= t < k ==> s@[at + t] == pat@[t],
        decreases plen - k,
    {
        if s.get_char(at + k) != pat.get_char(k) {
            proof {
                assert(s@.subrange(at as int, at + plen)[k as int] != pat@[k as int]);
            }
            return false;
        }
        k = k + 1;
    }
    proof {
        assert(s@.subrange(at as int, at + plen) =~= pat@);
    }
    true
}

/// Replaces every non-overlapping occurrence of `pat` in `s` by `rep`,
/// scanning left to right.
pub fn replace_str(s: &str, pat: &str, rep: &str) -> (r: String)
    requires
        pat@.len() > 0,
    ensures
        r@ == spec_replace(s@, pat@, rep@),
{
    let slen: usize = s.unicode_len();
    let plen: usize = pat.unicode_len();
    let mut out: String = String::new();
    let mut i: usize = 0;
    proof {
        assert(s@.skip(0) =~= s@);
    }
    while i < slen
        invariant
            i <= slen,
            slen == s@.len(),
            plen == pat@.len(),
            plen > 0,
            spec_replace(s@, pat@, rep@) == out@ + spec_replace(s@.skip(i as int), pat@, rep@),
        decreases slen - i,
    {
        let ghost tail = s@.skip(i as int);
        if plen <= slen - i && matches_at(s, slen, pat, plen, i) {
            proof {
                assert(tail.take(plen as int) =~= s@.subrange(i as int, i + plen));
                assert(tail.skip(plen as int) =~= s@.skip(i + plen));
            }
            out.append(rep);
            i = i + plen;
        } else {
            proof {
                if i + plen <= slen {
                    assert(tail.take(plen as int) =~= s@.subrange(i as int, i + plen));
                }
                assert(tail.drop_first() =~= s@.skip(i + 1));
                assert(tail[0] == s@[i as int]);
            }
            let c: char = s.get_char(i);
            push_char(&mut out, c);
            proof {
                assert(out@ =~= (out@.drop_last()).push(c));
                assert((seq![tail[0]] + spec_replace(tail.drop_first(), pat@, rep@)).len()
                    >= 0);
            }
            i = i + 1;
        }
    }
    proof {
        assert(s@.skip(slen as int) =~= Seq::<char>::empty());
        assert(spec_replace(Seq::<char>::empty(), pat@, rep@) =~= Seq::<char>::empty());
        assert(out@ =~= out@ + Seq::<char>::empty());
    }
    out
}

/// Character-wise string equality.
pub fn str_eq(a: &str, b: &str) -> (r: bool)
    ensures
        r == (a@ == b@),
{
    let alen: usize = a.unicode_len();
    let blen: usize = b.unicode_len();
    if alen != blen {
        return false;
    }
    let mut k: usize = 0;
    while k < alen
        invariant
            k <= alen,
            alen == a@.len(),
            alen == b@.len(),
            forall|t: int| 0 <= t < k ==> a@[t] == b@[t],
        decreases alen - k,
    {
        if a.get_char(k) != b.get_char(k) {
            return false;
        }
        k = k + 1;
    }
    proof {
        assert(a@ =~= b@);
    }
    true
}
} // verus!
