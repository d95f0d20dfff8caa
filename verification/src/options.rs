//! Normalization of XKB option lists.
//!
//! The keyword backends expect a clean comma-separated list: no leading or
//! trailing separators, no empty segments, single commas between entries.
//! Normalization splits on commas, trims whitespace from each segment,
//! drops empty segments, and rejoins with single commas. It is pure and
//! idempotent, and applied identically by every backend that uses it.

use vstd::prelude::*;

use crate::strutil::chars_to_string;
use crate::strutil::push_range;
use crate::strutil::to_chars;

verus! {

/// The whitespace characters trimmed from segment ends: the White_Space
/// set (tab through carriage return, space, next line, no-break space,
/// ogham space mark, the general punctuation spaces, the line and
/// paragraph separators, narrow no-break space, medium mathematical
/// space, and ideographic space).
pub open spec fn is_space(c: char) -> bool {
    let u = c as u32;
    ||| (0x09 <= u && u <= 0x0D)
    ||| u == 0x20
    ||| u == 0x85
    ||| u == 0xA0
    ||| u == 0x1680
    ||| (0x2000 <= u && u <= 0x200A)
    ||| u == 0x2028
    ||| u == 0x2029
    ||| u == 0x202F
    ||| u == 0x205F
    ||| u == 0x3000
}

/// `s` holds no comma.
pub open spec fn no_comma(s: Seq<char>) -> bool {
    forall|i: int| 0 <= i < s.len() ==> s[i] != ','
}

/// Split on commas. Always yields at least one segment; a string of n
/// commas yields n + 1 segments.
pub open spec fn split_commas(s: Seq<char>) -> Seq<Seq<char>>
    decreases s.len(),
{
    if s.len() == 0 {
        seq![Seq::<char>::empty()]
    } else {
        let rest = split_commas(s.drop_first());
        if s[0] == ',' {
            seq![Seq::<char>::empty()] + rest
        } else {
            seq![seq![s[0]] + rest[0]] + rest.drop_first()
        }
    }
}

/// Drop leading whitespace.
pub open spec fn trim_front(s: Seq<char>) -> Seq<char>
    decreases s.len(),
{
    if s.len() > 0 && is_space(s[0]) {
        trim_front(s.drop_first())
    } else {
        s
    }
}

/// Drop trailing whitespace.
pub open spec fn trim_back(s: Seq<char>) -> Seq<char>
    decreases s.len(),
{
    if s.len() > 0 && is_space(s.last()) {
        trim_back(s.drop_last())
    } else {
        s
    }
}

/// Drop leading and trailing whitespace.
pub open spec fn trim(s: Seq<char>) -> Seq<char> {
    trim_back(trim_front(s))
}

/// Trim every segment and drop the ones that end up empty.
pub open spec fn keep(parts: Seq<Seq<char>>) -> Seq<Seq<char>>
    decreases parts.len(),
{
    if parts.len() == 0 {
        Seq::<Seq<char>>::empty()
    } else {
        (if trim(parts[0]).len() == 0 {
            Seq::<Seq<char>>::empty()
        } else {
            seq![trim(parts[0])]
        }) + keep(parts.drop_first())
    }
}

/// Rejoin segments with single commas.
pub open spec fn join_commas(parts: Seq<Seq<char>>) -> Seq<char>
    decreases parts.len(),
{
    if parts.len() == 0 {
        Seq::<char>::empty()
    } else if parts.len() == 1 {
        parts[0]
    } else {
        parts[0] + seq![','] + join_commas(parts.drop_first())
    }
}

/// The normalized form of an option list.
pub open spec fn norm_spec(s: Seq<char>) -> Seq<char> {
    join_commas(keep(split_commas(s)))
}

/// A comma-free string is a single segment.
proof fn lemma_split_no_comma(s: Seq<char>)
    requires
        no_comma(s),
    ensures
        split_commas(s) == seq![s],
    decreases s.len(),
{
    if s.len() == 0 {
        assert(split_commas(s) =~~= seq![s]);
    } else {
        assert(s[0] != ',');
        lemma_split_no_comma(s.drop_first());
        assert(seq![s.drop_first()].drop_first() =~~= Seq::<Seq<char>>::empty());
        assert(split_commas(s) == seq![seq![s[0]] + s.drop_first()] + seq![
            s.drop_first(),
        ].drop_first());
        assert(seq![s[0]] + s.drop_first() =~= s);
        assert(split_commas(s) =~~= seq![s]);
    }
}

/// Splitting at the first comma: the comma-free head becomes the first
/// segment, the tail is split on its own.
proof fn lemma_split_at_comma(x: Seq<char>, y: Seq<char>)
    requires
        no_comma(x),
    ensures
        split_commas(x + seq![','] + y) == seq![x] + split_commas(y),
    decreases x.len(),
{
    let s = x + seq![','] + y;
    if x.len() == 0 {
        assert(s =~= seq![','] + y);
        assert(s[0] == ',');
        assert(s.drop_first() =~= y);
        assert(split_commas(s) =~~= seq![x] + split_commas(y));
    } else {
        assert(s[0] == x[0]);
        assert(x[0] != ',');
        assert(s.len() == x.len() + 1 + y.len());
        assert(s.drop_first() =~= x.drop_first() + seq![','] + y);
        lemma_split_at_comma(x.drop_first(), y);
        let rest = split_commas(x.drop_first() + seq![','] + y);
        assert(rest == seq![x.drop_first()] + split_commas(y));
        assert(rest[0] == x.drop_first());
        assert(seq![s[0]] + rest[0] =~= x);
        assert(rest.drop_first() =~~= split_commas(y));
        assert(split_commas(s) =~~= seq![x] + split_commas(y));
    }
}

/// `keep` distributes over concatenation.
proof fn lemma_keep_add(a: Seq<Seq<char>>, b: Seq<Seq<char>>)
    ensures
        keep(a + b) == keep(a) + keep(b),
    decreases a.len(),
{
    if a.len() == 0 {
        assert(a + b =~~= b);
        assert(keep(a) =~~= Seq::<Seq<char>>::empty());
        assert(keep(a) + keep(b) =~~= keep(b));
    } else {
        assert((a + b)[0] == a[0]);
        assert((a + b).drop_first() =~~= a.drop_first() + b);
        lemma_keep_add(a.drop_first(), b);
        assert(keep(a + b) =~~= keep(a) + keep(b));
    }
}

/// Appending one segment to a join: a comma is inserted exactly when
/// something was already there.
proof fn lemma_join_push(k: Seq<Seq<char>>, t: Seq<char>)
    ensures
        k.len() == 0 ==> join_commas(k + seq![t]) == t,
        k.len() > 0 ==> join_commas(k + seq![t]) == join_commas(k) + seq![','] + t,
    decreases k.len(),
{
    if k.len() == 0 {
        assert(k + seq![t] =~= seq![t]);
        assert(join_commas(seq![t]) == t);
    } else if k.len() == 1 {
        let s = k + seq![t];
        assert(s.len() == 2);
        assert(s[0] == k[0]);
        assert(s.drop_first() =~~= seq![t]);
        assert(join_commas(seq![t]) == t);
        assert(join_commas(s) == k[0] + seq![','] + t);
        assert(join_commas(k) == k[0]);
    } else {
        let s = k + seq![t];
        assert(s[0] == k[0]);
        assert(s.drop_first() =~~= k.drop_first() + seq![t]);
        lemma_join_push(k.drop_first(), t);
        assert(join_commas(s) == k[0] + seq![','] + (join_commas(k.drop_first()) + seq![','] + t));
        assert(join_commas(k) == k[0] + seq![','] + join_commas(k.drop_first()));
        assert(join_commas(s) =~= join_commas(k) + seq![','] + t);
    }
}


/// When the first `m` characters are whitespace and the next one is not,
/// trimming the front drops exactly those `m` characters.
proof fn lemma_trim_front_skip(x: Seq<char>, m: int)
    requires
        0 <= m <= x.len(),
        forall|k: int| 0 <= k < m ==> is_space(x[k]),
        m == x.len() || !is_space(x[m]),
    ensures
        trim_front(x) == x.skip(m),
    decreases m,
{
    if m == 0 {
        assert(x.skip(0) =~= x);
    } else {
        assert(is_space(x[0]));
        let x1 = x.drop_first();
        assert(forall|k: int| 0 <= k < m - 1 ==> is_space(x1[k]));
        assert(m - 1 == x1.len() || !is_space(x1[m - 1]));
        lemma_trim_front_skip(x1, m - 1);
        assert(x1.skip(m - 1) =~= x.skip(m));
    }
}

/// When everything from position `m` on is whitespace and the character
/// before is not, trimming the back keeps exactly the first `m` characters.
proof fn lemma_trim_back_take(y: Seq<char>, m: int)
    requires
        0 <= m <= y.len(),
        forall|k: int| m <= k < y.len() ==> is_space(y[k]),
        m == 0 || !is_space(y[m - 1]),
    ensures
        trim_back(y) == y.take(m),
    decreases y.len() - m,
{
    if m == y.len() {
        if y.len() > 0 && is_space(y.last()) {
            assert(!is_space(y[m - 1]));
            assert(false);
        }
        assert(y.take(m) =~= y);
    } else {
        assert(is_space(y.last()));
        let y1 = y.drop_last();
        assert(forall|k: int| m <= k < y1.len() ==> is_space(y1[k]));
        lemma_trim_back_take(y1, m);
        assert(y1.take(m) =~= y.take(m));
    }
}

/// The trimmed middle of a whitespace-padded comma-free segment.
proof fn lemma_trim_subrange(cs: Seq<char>, pos: int, a: int, b: int, j: int)
    requires
        0 <= pos <= a <= b <= j <= cs.len(),
        forall|k: int| pos <= k < a ==> is_space(cs[k]),
        a == j || !is_space(cs[a]),
        forall|k: int| b <= k < j ==> is_space(cs[k]),
        b == a || !is_space(cs[b - 1]),
    ensures
        trim(cs.subrange(pos, j)) == cs.subrange(a, b),
{
    let x = cs.subrange(pos, j);
    assert(forall|k: int| 0 <= k < a - pos ==> is_space(x[k]));
    assert(a - pos == x.len() || !is_space(x[a - pos]));
    lemma_trim_front_skip(x, a - pos);
    let y = cs.subrange(a, j);
    assert(x.skip(a - pos) =~= y);
    assert(forall|k: int| b - a <= k < y.len() ==> is_space(y[k]));
    assert(b - a == 0 || !is_space(y[b - a - 1]));
    lemma_trim_back_take(y, b - a);
    assert(y.take(b - a) =~= cs.subrange(a, b));
}

/// Whether `c` is trimmed whitespace.
pub fn is_space_c(c: char) -> (r: bool)
    ensures
        r == is_space(c),
{
    let u = c as u32;
    (0x09 <= u && u <= 0x0D) || u == 0x20 || u == 0x85 || u == 0xA0 || u == 0x1680 || (0x2000 <= u
        && u <= 0x200A) || u == 0x2028 || u == 0x2029 || u == 0x202F || u == 0x205F || u == 0x3000
}

/// Normalize an XKB option list: split on commas, trim whitespace from
/// each segment, drop empty segments, rejoin with single commas.
pub fn normalize_options(s: &str) -> (r: String)
    ensures
        r@ == norm_spec(s@),
{
    let cs = to_chars(s);
    let n = cs.len();
    let mut out: Vec<char> = Vec::new();
    let mut pos: usize = 0;
    let mut emitted = false;
    let mut done = false;
    let ghost mut kept: Seq<Seq<char>> = Seq::<Seq<char>>::empty();
    proof {
        assert(cs@.skip(0) =~= cs@);
        assert(kept + keep(split_commas(cs@)) =~~= keep(split_commas(cs@)));
        assert(out@ =~= join_commas(kept));
    }

    while !done
        invariant
            cs@ == s@,
            n == cs@.len(),
            pos <= n,
            out@ == join_commas(kept),
            forall|k: int| 0 <= k < kept.len() ==> kept[k].len() > 0,
            emitted == (kept.len() > 0),
            !done ==> keep(split_commas(cs@)) == kept + keep(split_commas(cs@.skip(pos as int))),
            done ==> keep(split_commas(cs@)) == kept,
        decreases n - pos, (if done { 0int } else { 1int }),
    {
        let mut j: usize = pos;
        while j < n && !(cs[j] == ',')
            invariant
                pos <= j <= n,
                n == cs@.len(),
                forall|k: int| pos <= k < j ==> cs@[k] != ',',
            decreases n - j,
        {
            j = j + 1;
        }
        let mut a: usize = pos;
        while a < j && is_space_c(cs[a])
            invariant
                pos <= a <= j <= n,
                n == cs@.len(),
                forall|k: int| pos <= k < a ==> is_space(cs@[k]),
            decreases j - a,
        {
            a = a + 1;
        }
        let mut b: usize = j;
        while b > a && is_space_c(cs[b - 1])
            invariant
                a <= b <= j <= n,
                n == cs@.len(),
                forall|k: int| b <= k < j ==> is_space(cs@[k]),
            decreases b - a,
        {
            b = b - 1;
        }
        let ghost x = cs@.subrange(pos as int, j as int);
        let ghost t = trim(x);
        proof {
            lemma_trim_subrange(cs@, pos as int, a as int, b as int, j as int);
            assert(t == cs@.subrange(a as int, b as int));
            assert(no_comma(x));
            // One keep step over the leading segment.
            assert(seq![x].drop_first() =~~= Seq::<Seq<char>>::empty());
            assert(keep(Seq::<Seq<char>>::empty()) =~~= Seq::<Seq<char>>::empty());
            if t.len() == 0 {
                assert(keep(seq![x]) =~~= Seq::<Seq<char>>::empty());
            } else {
                assert(keep(seq![x]) =~~= seq![t]);
            }
        }
        if b > a {
            if emitted {
                out.push(',');
            }
            push_range(&mut out, &cs, a, b);
            proof {
                lemma_join_push(kept, t);
                if kept.len() == 0 {
                    assert(out@ =~= t);
                } else {
                    assert(out@ =~= join_commas(kept) + seq![','] + t);
                }
                kept = kept + seq![t];
                assert(out@ == join_commas(kept));
            }
            emitted = true;
        } else {
            proof {
                assert(t.len() == 0);
            }
        }
        if j == n {
            proof {
                assert(cs@.skip(pos as int) =~= x);
                lemma_split_no_comma(x);
                assert(keep(split_commas(cs@.skip(pos as int))) =~~= keep(seq![x]));
                if t.len() == 0 {
                    assert(kept + Seq::<Seq<char>>::empty() =~~= kept);
                }
                assert(keep(split_commas(cs@)) =~~= kept);
            }
            done = true;
        } else {
            proof {
                assert(cs@[j as int] == ',');
                assert(cs@.skip(pos as int) =~= x + seq![','] + cs@.skip(j + 1 as int));
                lemma_split_at_comma(x, cs@.skip(j + 1 as int));
                lemma_keep_add(seq![x], split_commas(cs@.skip(j + 1 as int)));
                assert(keep(split_commas(cs@.skip(pos as int))) =~~= keep(seq![x]) + keep(
                    split_commas(cs@.skip(j + 1 as int)),
                ));
                assert(keep(split_commas(cs@)) =~~= kept + keep(
                    split_commas(cs@.skip(j + 1 as int)),
                ));
            }
            pos = j + 1;
        }
    }
    let r = chars_to_string(&out);
    proof {
        assert(r@ == norm_spec(s@));
    }
    r
}


/// Every segment produced by splitting is comma-free.
proof fn lemma_split_elements_no_comma(s: Seq<char>)
    ensures
        forall|k: int| 0 <= k < split_commas(s).len() ==> no_comma(#[trigger] split_commas(s)[k]),
    decreases s.len(),
{
    if s.len() == 0 {
        assert(no_comma(Seq::<char>::empty()));
        assert(split_commas(s) == seq![Seq::<char>::empty()]);
    } else {
        let rest = split_commas(s.drop_first());
        lemma_split_elements_no_comma(s.drop_first());
        if s[0] == ',' {
            assert(no_comma(Seq::<char>::empty()));
            assert forall|k: int| 0 <= k < split_commas(s).len() implies no_comma(
                #[trigger] split_commas(s)[k],
            ) by {
                if k == 0 {
                } else {
                    assert(split_commas(s)[k] == rest[k - 1]);
                }
            }
        } else {
            assert forall|k: int| 0 <= k < split_commas(s).len() implies no_comma(
                #[trigger] split_commas(s)[k],
            ) by {
                if k == 0 {
                    assert(split_commas(s)[0] == seq![s[0]] + rest[0]);
                    assert(no_comma(rest[0]));
                    assert(s[0] != ',');
                    assert forall|i: int|
                        0 <= i < (seq![s[0]] + rest[0]).len() implies (seq![s[0]] + rest[0])[i]
                        != ',' by {
                        if i > 0 {
                            assert((seq![s[0]] + rest[0])[i] == rest[0][i - 1]);
                        }
                    }
                } else {
                    assert(split_commas(s)[k] == rest.drop_first()[k - 1]);
                    assert(rest.drop_first()[k - 1] == rest[k]);
                }
            }
        }
    }
}

/// A trimmed front starts with a non-space, keeps comma-freedom, and is
/// stable under another front trim.
proof fn lemma_trim_front_props(x: Seq<char>)
    ensures
        trim_front(x).len() > 0 ==> !is_space(trim_front(x)[0]),
        no_comma(x) ==> no_comma(trim_front(x)),
        trim_front(trim_front(x)) == trim_front(x),
    decreases x.len(),
{
    if x.len() > 0 && is_space(x[0]) {
        lemma_trim_front_props(x.drop_first());
        assert(no_comma(x) ==> no_comma(x.drop_first()));
    }
}

/// A trimmed back ends with a non-space, keeps its first character and
/// comma-freedom, and is stable under another back trim.
proof fn lemma_trim_back_props(y: Seq<char>)
    ensures
        trim_back(y).len() > 0 ==> !is_space(trim_back(y).last()),
        trim_back(y).len() > 0 ==> trim_back(y)[0] == y[0],
        no_comma(y) ==> no_comma(trim_back(y)),
        trim_back(trim_back(y)) == trim_back(y),
    decreases y.len(),
{
    if y.len() > 0 && is_space(y.last()) {
        lemma_trim_back_props(y.drop_last());
        assert(no_comma(y) ==> no_comma(y.drop_last()));
        assert(trim_back(y).len() > 0 ==> trim_back(y)[0] == y.drop_last()[0]);
    }
}

/// Trimming is idempotent and keeps comma-freedom.
proof fn lemma_trim_props(x: Seq<char>)
    ensures
        trim(trim(x)) == trim(x),
        no_comma(x) ==> no_comma(trim(x)),
{
    let y = trim_front(x);
    let z = trim_back(y);
    lemma_trim_front_props(x);
    lemma_trim_back_props(y);
    if z.len() > 0 {
        assert(y.len() > 0);
        assert(z[0] == y[0]);
        assert(!is_space(z[0]));
    }
    assert(trim_front(z) == z);
    lemma_trim_back_props(z);
    assert(trim(z) == trim_back(z));
    assert(trim_back(z) == trim_back(trim_back(y)));
}

/// Every kept segment is nonempty, already trimmed, and comma-free.
proof fn lemma_keep_elements(parts: Seq<Seq<char>>)
    requires
        forall|k: int| 0 <= k < parts.len() ==> no_comma(#[trigger] parts[k]),
    ensures
        forall|k: int|
            0 <= k < keep(parts).len() ==> (#[trigger] keep(parts)[k]).len() > 0 && trim(
                keep(parts)[k],
            ) == keep(parts)[k] && no_comma(keep(parts)[k]),
    decreases parts.len(),
{
    if parts.len() > 0 {
        assert(no_comma(parts[0]));
        lemma_trim_props(parts[0]);
        assert(forall|k: int| 0 <= k < parts.drop_first().len() ==> no_comma(
            #[trigger] parts.drop_first()[k],
        ));
        lemma_keep_elements(parts.drop_first());
        let t0 = trim(parts[0]);
        let head: Seq<Seq<char>> = if t0.len() == 0 {
            Seq::<Seq<char>>::empty()
        } else {
            seq![t0]
        };
        assert forall|k: int|
            0 <= k < keep(parts).len() implies (#[trigger] keep(parts)[k]).len() > 0 && trim(
            keep(parts)[k],
        ) == keep(parts)[k] && no_comma(keep(parts)[k]) by {
            if k < head.len() {
                assert(keep(parts)[k] == t0);
            } else {
                assert(keep(parts)[k] == keep(parts.drop_first())[k - head.len()]);
            }
        }
    }
}

/// Splitting a join of nonempty comma-free segments recovers the segments.
proof fn lemma_split_join(k: Seq<Seq<char>>)
    requires
        k.len() > 0,
        forall|i: int| 0 <= i < k.len() ==> no_comma(#[trigger] k[i]),
    ensures
        split_commas(join_commas(k)) == k,
    decreases k.len(),
{
    if k.len() == 1 {
        lemma_split_no_comma(k[0]);
        assert(split_commas(join_commas(k)) =~~= k);
    } else {
        assert(join_commas(k) == k[0] + seq![','] + join_commas(k.drop_first()));
        lemma_split_at_comma(k[0], join_commas(k.drop_first()));
        assert(forall|i: int| 0 <= i < k.drop_first().len() ==> no_comma(
            #[trigger] k.drop_first()[i],
        ));
        lemma_split_join(k.drop_first());
        assert(split_commas(join_commas(k)) =~~= seq![k[0]] + k.drop_first());
        assert(seq![k[0]] + k.drop_first() =~~= k);
    }
}

/// Keeping already-kept segments changes nothing.
proof fn lemma_keep_fixed(k: Seq<Seq<char>>)
    requires
        forall|i: int|
            0 <= i < k.len() ==> (#[trigger] k[i]).len() > 0 && trim(k[i]) == k[i],
    ensures
        keep(k) == k,
    decreases k.len(),
{
    if k.len() == 0 {
        assert(keep(k) =~~= k);
    } else {
        assert(trim(k[0]) == k[0]);
        assert(forall|i: int|
            0 <= i < k.drop_first().len() ==> (#[trigger] k.drop_first()[i]).len() > 0 && trim(
                k.drop_first()[i],
            ) == k.drop_first()[i]);
        lemma_keep_fixed(k.drop_first());
        assert(keep(k) =~~= seq![k[0]] + k.drop_first());
        assert(seq![k[0]] + k.drop_first() =~~= k);
    }
}

/// Normalization is idempotent: normalizing an already-normalized option
/// list gives it back unchanged.
pub proof fn lemma_normalize_idempotent(s: Seq<char>)
    ensures
        norm_spec(norm_spec(s)) == norm_spec(s),
{
    let p = split_commas(s);
    let k = keep(p);
    lemma_split_elements_no_comma(s);
    lemma_keep_elements(p);
    if k.len() == 0 {
        assert(norm_spec(s) == Seq::<char>::empty());
        assert(split_commas(Seq::<char>::empty()) == seq![Seq::<char>::empty()]);
        assert(trim_front(Seq::<char>::empty()) == Seq::<char>::empty());
        assert(trim(Seq::<char>::empty()).len() == 0);
        assert(seq![Seq::<char>::empty()].drop_first() =~~= Seq::<Seq<char>>::empty());
        assert(keep(Seq::<Seq<char>>::empty()) =~~= Seq::<Seq<char>>::empty());
        assert(keep(seq![Seq::<char>::empty()]) =~~= Seq::<Seq<char>>::empty());
        assert(norm_spec(norm_spec(s)) == join_commas(Seq::<Seq<char>>::empty()));
    } else {
        lemma_split_join(k);
        lemma_keep_fixed(k);
    }
}

} // verus!
