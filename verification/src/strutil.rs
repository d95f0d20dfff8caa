//! Character-level string utilities shared by the backend adapters.

use vstd::prelude::*;
use vstd::string::StrSliceExecFns;

verus! {

/// Decode a string into its characters.
pub fn to_chars(s: &str) -> (v: Vec<char>)
    ensures
        v@ == s@,
{
    let n = s.unicode_len();
    let mut v: Vec<char> = Vec::new();
    let mut i: usize = 0;
    while i < n
        invariant
            i <= n,
            n == s@.len(),
            v@ == s@.take(i as int),
        decreases n - i,
    {
        let c = s.get_char(i);
        v.push(c);
        proof {
            assert(v@ =~= s@.take(i + 1 as int));
        }
        i = i + 1;
    }
    proof {
        assert(v@ =~= s@);
    }
    v
}

/// Relies on `String`'s `FromIterator` over `char`: collecting characters
/// yields the string whose view is exactly that character sequence.
#[verifier::external_body]
pub(crate) fn chars_to_string(v: &Vec<char>) -> (r: String)
    ensures
        r@ == v@,
{
    v.iter().collect()
}

/// Append every character of `src` from index `from` up to `to`.
pub fn push_range(dst: &mut Vec<char>, src: &Vec<char>, from: usize, to: usize)
    requires
        from <= to <= src@.len(),
    ensures
        final(dst)@ == old(dst)@ + src@.subrange(from as int, to as int),
{
    let mut i: usize = from;
    while i < to
        invariant
            from <= i <= to <= src@.len(),
            dst@ == old(dst)@ + src@.subrange(from as int, i as int),
        decreases to - i,
    {
        dst.push(src[i]);
        proof {
            assert(dst@ =~= old(dst)@ + src@.subrange(from as int, i + 1 as int));
        }
        i = i + 1;
    }
}


/// ASCII lowercase folding of one character.
pub open spec fn lower_c(c: char) -> char {
    if 'A' <= c && c <= 'Z' {
        (((c as u32) + 32) as u8) as char
    } else {
        c
    }
}

/// ASCII lowercase folding of a character sequence.
pub open spec fn lower_seq(s: Seq<char>) -> Seq<char> {
    s.map_values(|c: char| lower_c(c))
}

/// `pat` occurs in `hay` at position `i`, comparing case-insensitively on
/// the ASCII letters of `hay`.
pub open spec fn match_at(hay: Seq<char>, pat: Seq<char>, i: int) -> bool {
    &&& 0 <= i
    &&& i + pat.len() <= hay.len()
    &&& forall|k: int| 0 <= k < pat.len() ==> lower_c(hay[i + k]) == pat[k]
}

/// `pat` occurs somewhere in `hay`, comparing case-insensitively on the
/// ASCII letters of `hay`.
pub open spec fn contains_ci(hay: Seq<char>, pat: Seq<char>) -> bool {
    exists|i: int| match_at(hay, pat, i)
}

/// ASCII lowercase folding of one character.
pub fn lower_char(c: char) -> (r: char)
    ensures
        r == lower_c(c),
{
    let u = c as u32;
    if 65 <= u && u <= 90 {
        ((u + 32) as u8) as char
    } else {
        c
    }
}

/// Does `hay` contain `pat`, folding ASCII letters of `hay` to lowercase
/// first? The pattern is expected already lowercase.
pub fn contains_lower(hay: &str, pat: &str) -> (r: bool)
    ensures
        r == contains_ci(hay@, pat@),
{
    let h = to_chars(hay);
    let p = to_chars(pat);
    let hn = h.len();
    let pn = p.len();
    if pn > hn {
        proof {
            assert(forall|i: int| !match_at(hay@, pat@, i));
        }
        return false;
    }
    let mut i: usize = 0;
    while i <= hn - pn
        invariant
            pn <= hn,
            hn == hay@.len(),
            pn == pat@.len(),
            h@ == hay@,
            p@ == pat@,
            i <= hn - pn + 1,
            forall|q: int| 0 <= q < i ==> !match_at(hay@, pat@, q),
        decreases hn + 1 - i,
    {
        let mut k: usize = 0;
        let mut hit = true;
        while k < pn
            invariant
                i + pn <= hn,
                hn == hay@.len(),
                pn == pat@.len(),
                h@ == hay@,
                p@ == pat@,
                k <= pn,
                hit ==> forall|q: int| 0 <= q < k ==> lower_c(hay@[i + q]) == pat@[q],
                !hit ==> !match_at(hay@, pat@, i as int),
            decreases pn - k,
        {
            if !(lower_char(h[i + k]) == p[k]) {
                proof {
                    assert(lower_c(hay@[i + k]) != pat@[k as int]);
                }
                hit = false;
                k = pn;
            } else {
                k = k + 1;
            }
        }
        if hit {
            proof {
                assert(match_at(hay@, pat@, i as int));
            }
            return true;
        }
        proof {
            assert(!match_at(hay@, pat@, i as int));
        }
        i = i + 1;
    }
    proof {
        assert forall|q: int| !match_at(hay@, pat@, q) by {
            if 0 <= q && q + pat@.len() <= hay@.len() {
                assert(q < i);
            }
        }
    }
    false
}

/// Is the ASCII-lowercase folding of `hay` exactly `pat`? The pattern is
/// expected already lowercase.
pub fn eq_lower(hay: &str, pat: &str) -> (r: bool)
    ensures
        r == (lower_seq(hay@) == pat@),
{
    let h = to_chars(hay);
    let p = to_chars(pat);
    let hn = h.len();
    let pn = p.len();
    if hn != pn {
        proof {
            assert(lower_seq(hay@).len() == hay@.len());
        }
        return false;
    }
    let mut k: usize = 0;
    while k < pn
        invariant
            hn == pn,
            hn == hay@.len(),
            pn == pat@.len(),
            h@ == hay@,
            p@ == pat@,
            k <= pn,
            forall|q: int| 0 <= q < k ==> lower_c(hay@[q]) == pat@[q],
        decreases pn - k,
    {
        if !(lower_char(h[k]) == p[k]) {
            proof {
                assert(lower_seq(hay@)[k as int] == lower_c(hay@[k as int]));
            }
            return false;
        }
        k = k + 1;
    }
    proof {
        assert(lower_seq(hay@) =~= pat@);
    }
    true
}


/// Exact equality of two strings, by their characters.
pub fn str_eq(a: &str, b: &str) -> (r: bool)
    ensures
        r == (a@ == b@),
{
    let va = to_chars(a);
    let vb = to_chars(b);
    let n = va.len();
    if n != vb.len() {
        return false;
    }
    let mut k: usize = 0;
    while k < n
        invariant
            n == a@.len(),
            n == b@.len(),
            va@ == a@,
            vb@ == b@,
            k <= n,
            forall|q: int| 0 <= q < k ==> a@[q] == b@[q],
        decreases n - k,
    {
        if !(va[k] == vb[k]) {
            return false;
        }
        k = k + 1;
    }
    proof {
        assert(a@ =~= b@);
    }
    true
}

} // verus!
