//! Character-level text operations with exact specifications: equality,
//! prefix stripping, splitting at the first occurrence of a separator, and
//! trimming of Unicode white space.

use vstd::prelude::*;

verus! {

broadcast use vstd::string::group_string_axioms;

/// The characters of `s`, in order.
pub fn chars_of(s: &str) -> (v: Vec<char>)
    ensures
        v@ == s@,
{
    let mut v: Vec<char> = Vec::new();
    for c in it: s.chars()
        invariant
            v@ == it.seq().take(it.index()),
            it.seq() == s@,
    {
        v.push(c);
    }
    v
}

/// Whether two texts hold the same characters.
pub fn text_eq(a: &str, b: &str) -> (r: bool)
    ensures
        r == (a@ == b@),
{
    let x = chars_of(a);
    let y = chars_of(b);
    if x.len() != y.len() {
        return false;
    }
    let mut i: usize = 0;
    while i < x.len()
        invariant
            x@ == a@,
            y@ == b@,
            x.len() == y.len(),
            i <= x.len(),
            forall|j: int| 0 <= j < i ==> x@[j] == y@[j],
        decreases x.len() - i,
    {
        if x[i] != y[i] {
            assert(x@[i as int] != y@[i as int]);
            return false;
        }
        i = i + 1;
    }
    assert(x@ =~= y@);
    true
}

/// `p` occurs in `s` starting at position `i`.
pub open spec fn occurs_at(s: Seq<char>, p: Seq<char>, i: int) -> bool {
    &&& 0 <= i
    &&& i + p.len() <= s.len()
    &&& s.subrange(i, i + p.len()) == p
}

/// The first position at or after `k` where `p` occurs in `s`.
pub open spec fn first_occurrence_from(s: Seq<char>, p: Seq<char>, k: int) -> Option<int>
    decreases s.len() - k,
{
    if k < 0 || k + p.len() > s.len() {
        None
    } else if occurs_at(s, p, k) {
        Some(k)
    } else if k < s.len() {
        first_occurrence_from(s, p, k + 1)
    } else {
        None
    }
}

/// The first position where `p` occurs in `s`.
pub open spec fn first_occurrence(s: Seq<char>, p: Seq<char>) -> Option<int> {
    first_occurrence_from(s, p, 0)
}

/// What `str::strip_prefix` computes: the rest of `s` when it starts with `p`.
pub open spec fn strip_prefix_spec(s: Seq<char>, p: Seq<char>) -> Option<Seq<char>> {
    if p.len() <= s.len() && s.subrange(0, p.len() as int) == p {
        Some(s.skip(p.len() as int))
    } else {
        None
    }
}

/// What `str::split_once` computes: the parts of `s` before and after the
/// first occurrence of `p`.
pub open spec fn split_once_spec(s: Seq<char>, p: Seq<char>) -> Option<(Seq<char>, Seq<char>)> {
    match first_occurrence(s, p) {
        Some(i) => Some((s.take(i), s.skip(i + p.len()))),
        None => None,
    }
}

/// A character of the Unicode `White_Space` property, the set that
/// `char::is_whitespace` recognises.
pub open spec fn is_white_space(c: char) -> bool {
    let u = c as u32;
    ||| 0x9 <= u <= 0xd
    ||| u == 0x20
    ||| u == 0x85
    ||| u == 0xa0
    ||| u == 0x1680
    ||| 0x2000 <= u <= 0x200a
    ||| u == 0x2028
    ||| u == 0x2029
    ||| u == 0x202f
    ||| u == 0x205f
    ||| u == 0x3000
}

/// `s` without its leading white space.
pub open spec fn trim_start(s: Seq<char>) -> Seq<char>
    decreases s.len(),
{
    if s.len() > 0 && is_white_space(s[0]) {
        trim_start(s.drop_first())
    } else {
        s
    }
}

/// `s` without its trailing white space.
pub open spec fn trim_end(s: Seq<char>) -> Seq<char>
    decreases s.len(),
{
    if s.len() > 0 && is_white_space(s.last()) {
        trim_end(s.drop_last())
    } else {
        s
    }
}

/// What `str::trim` computes: `s` without leading and trailing white space.
pub open spec fn trim(s: Seq<char>) -> Seq<char> {
    trim_end(trim_start(s))
}

fn white_space(c: char) -> (r: bool)
    ensures
        r == is_white_space(c),
{
    let u = c as u32;
    (0x9 <= u && u <= 0xd) || u == 0x20 || u == 0x85 || u == 0xa0 || u == 0x1680 || (0x2000
        <= u && u <= 0x200a) || u == 0x2028 || u == 0x2029 || u == 0x202f || u == 0x205f || u
        == 0x3000
}

/// The first position where `p` occurs in `s`, searched from `from` on.
fn find_from(s: &Vec<char>, p: &Vec<char>, from: usize) -> (r: Option<usize>)
    ensures
        r matches Some(i) ==> first_occurrence_from(s@, p@, from as int) == Some(i as int),
        r is None ==> first_occurrence_from(s@, p@, from as int) is None,
{
    let mut k: usize = from;
    while k <= s.len() && p.len() <= s.len() - k
        invariant
            from <= k,
            first_occurrence_from(s@, p@, from as int) == first_occurrence_from(s@, p@, k as int),
        decreases s.len() - k,
    {
        let mut j: usize = 0;
        let mut same = true;
        while j < p.len()
            invariant
                k + p.len() <= s.len(),
                j <= p.len(),
                same == (forall|t: int| 0 <= t < j ==> s@[k + t] == p@[t]),
            decreases p.len() - j,
        {
            if s[k + j] != p[j] {
                same = false;
            }
            j = j + 1;
        }
        if same {
            assert(s@.subrange(k as int, k + p.len()) =~= p@);
            return Some(k);
        } else {
            assert(!occurs_at(s@, p@, k as int)) by {
                if occurs_at(s@, p@, k as int) {
                    assert forall|t: int| 0 <= t < p.len() implies s@[k + t] == p@[t] by {
                        assert(s@.subrange(k as int, k + p.len())[t] == s@[k + t]);
                    }
                }
            }
        }
        k = k + 1;
    }
    None
}

/// The rest of `s` after the prefix `p`, when `s` starts with `p`.
pub fn strip_prefix<'a>(s: &'a str, p: &str) -> (r: Option<&'a str>)
    ensures
        r matches Some(t) ==> strip_prefix_spec(s@, p@) == Some(t@),
        r is None ==> strip_prefix_spec(s@, p@) is None,
{
    let x = chars_of(s);
    let y = chars_of(p);
    if y.len() > x.len() {
        return None;
    }
    let mut i: usize = 0;
    while i < y.len()
        invariant
            x@ == s@,
            y@ == p@,
            y.len() <= x.len(),
            i <= y.len(),
            forall|j: int| 0 <= j < i ==> x@[j] == y@[j],
        decreases y.len() - i,
    {
        if x[i] != y[i] {
            assert(s@.subrange(0, p@.len() as int)[i as int] != p@[i as int]);
            return None;
        }
        i = i + 1;
    }
    assert(s@.subrange(0, p@.len() as int) =~= p@);
    Some(s.substring_char(y.len(), x.len()))
}

/// The parts of `s` before and after the first occurrence of `p`.
pub fn split_once<'a>(s: &'a str, p: &str) -> (r: Option<(&'a str, &'a str)>)
    ensures
        r matches Some((a, b)) ==> split_once_spec(s@, p@) == Some((a@, b@)),
        r is None ==> split_once_spec(s@, p@) is None,
{
    let x = chars_of(s);
    let y = chars_of(p);
    match find_from(&x, &y, 0) {
        Some(i) => {
            proof {
                lemma_first_occurrence_from_occurs(s@, p@, 0);
                assert(first_occurrence_from(s@, p@, 0) == Some(i as int));
            }
            assert(occurs_at(s@, p@, i as int));
            assert(i + y.len() <= x.len());
            let a = s.substring_char(0, i);
            let b = s.substring_char(i + y.len(), x.len());
            proof {
                assert(a@ =~= s@.take(i as int));
                assert(b@ =~= s@.skip(i + p@.len()));
            }
            Some((a, b))
        },
        None => None,
    }
}

proof fn lemma_first_occurrence_from_occurs(s: Seq<char>, p: Seq<char>, k: int)
    ensures
        first_occurrence_from(s, p, k) matches Some(i) ==> occurs_at(s, p, i) && k <= i,
    decreases s.len() - k,
{
    if !(k < 0 || k + p.len() > s.len()) && !occurs_at(s, p, k) && k < s.len() {
        lemma_first_occurrence_from_occurs(s, p, k + 1);
    }
}

/// `s` without leading and trailing Unicode white space.
pub fn trim_text<'a>(s: &'a str) -> (r: &'a str)
    ensures
        r@ == trim(s@),
{
    let x = chars_of(s);
    let n = x.len();
    let mut lo: usize = 0;
    assert(s@.subrange(0, n as int) =~= s@);
    while lo < n && white_space(x[lo])
        invariant
            x@ == s@,
            n == x.len(),
            lo <= n,
            trim_start(s@) == trim_start(s@.subrange(lo as int, n as int)),
        decreases n - lo,
    {
        assert(s@.subrange(lo as int, n as int).drop_first() =~= s@.subrange(lo + 1, n as int));
        lo = lo + 1;
    }
    assert(trim_start(s@.subrange(lo as int, n as int)) == s@.subrange(lo as int, n as int));
    let mut hi: usize = n;
    while hi > lo && white_space(x[hi - 1])
        invariant
            x@ == s@,
            n == x.len(),
            lo <= hi <= n,
            trim(s@) == trim_end(s@.subrange(lo as int, hi as int)),
        decreases hi - lo,
    {
        assert(s@.subrange(lo as int, hi as int).drop_last() =~= s@.subrange(lo as int, hi - 1));
        hi = hi - 1;
    }
    assert(trim_end(s@.subrange(lo as int, hi as int)) == s@.subrange(lo as int, hi as int));
    s.substring_char(lo, hi)
}

proof fn lemma_first_occurrence_from_is_first(s: Seq<char>, p: Seq<char>, k: int)
    requires
        0 <= k,
    ensures
        first_occurrence_from(s, p, k) matches Some(i) ==> forall|j: int|
            k <= j < i ==> !occurs_at(s, p, j),
        first_occurrence_from(s, p, k) is None ==> forall|j: int| k <= j ==> !occurs_at(s, p, j),
    decreases s.len() - k,
{
    if !(k + p.len() > s.len()) && !occurs_at(s, p, k) && k < s.len() {
        lemma_first_occurrence_from_is_first(s, p, k + 1);
    }
}

/// The parts that `split_once` returns, joined around the separator, give
/// the text back, and the separator occurs nowhere earlier; when there are
/// no parts, the separator occurs nowhere.
pub proof fn law_split_once_reassembles(s: Seq<char>, p: Seq<char>)
    ensures
        split_once_spec(s, p) matches Some((a, b)) ==> {
            &&& s == a + p + b
            &&& forall|j: int| 0 <= j < a.len() ==> !occurs_at(s, p, j)
        },
        split_once_spec(s, p) is None ==> forall|j: int| 0 <= j ==> !occurs_at(s, p, j),
{
    lemma_first_occurrence_from_occurs(s, p, 0);
    lemma_first_occurrence_from_is_first(s, p, 0);
    if let Some(i) = first_occurrence(s, p) {
        assert(s.subrange(i, i + p.len()) == p);
        assert(s =~= s.take(i) + p + s.skip(i + p.len()));
    }
}

/// What `strip_prefix` returns, after the prefix, gives the text back.
pub proof fn law_strip_prefix_reassembles(s: Seq<char>, p: Seq<char>)
    ensures
        strip_prefix_spec(s, p) matches Some(rest) ==> s == p + rest,
{
    if let Some(rest) = strip_prefix_spec(s, p) {
        assert(s =~= s.subrange(0, p.len() as int) + s.skip(p.len() as int));
    }
}

proof fn lemma_trim_start(s: Seq<char>) -> (k: int)
    ensures
        0 <= k <= s.len(),
        trim_start(s) == s.skip(k),
        forall|i: int| 0 <= i < k ==> is_white_space(#[trigger] s[i]),
        k < s.len() ==> !is_white_space(s[k]),
    decreases s.len(),
{
    if s.len() > 0 && is_white_space(s[0]) {
        let k1 = lemma_trim_start(s.drop_first());
        assert(s.drop_first().skip(k1) =~= s.skip(k1 + 1));
        assert forall|i: int| 0 <= i < k1 + 1 implies is_white_space(#[trigger] s[i]) by {
            if i > 0 {
                assert(s[i] == s.drop_first()[i - 1]);
            }
        }
        k1 + 1
    } else {
        assert(s.skip(0) =~= s);
        0
    }
}

proof fn lemma_trim_end(s: Seq<char>) -> (k: int)
    ensures
        0 <= k <= s.len(),
        trim_end(s) == s.take(k),
        forall|i: int| k <= i < s.len() ==> is_white_space(#[trigger] s[i]),
        k > 0 ==> !is_white_space(s[k - 1]),
    decreases s.len(),
{
    if s.len() > 0 && is_white_space(s.last()) {
        let k1 = lemma_trim_end(s.drop_last());
        assert(s.drop_last().take(k1) =~= s.take(k1));
        assert forall|i: int| k1 <= i < s.len() implies is_white_space(#[trigger] s[i]) by {
            if i < s.len() - 1 {
                assert(s[i] == s.drop_last()[i]);
            }
        }
        k1
    } else {
        assert(s.take(s.len() as int) =~= s);
        s.len() as int
    }
}

/// Trimming removes exactly the white space at both ends: the result is a
/// contiguous part of the text, everything around it is white space, and it
/// neither starts nor ends with white space.
pub proof fn law_trim_removes_exactly_outer_white_space(s: Seq<char>)
    ensures
        exists|lo: int, hi: int|
            {
                &&& 0 <= lo <= hi <= s.len()
                &&& trim(s) == s.subrange(lo, hi)
                &&& forall|i: int| 0 <= i < lo ==> is_white_space(#[trigger] s[i])
                &&& forall|i: int| hi <= i < s.len() ==> is_white_space(#[trigger] s[i])
                &&& lo < hi ==> !is_white_space(s[lo]) && !is_white_space(s[hi - 1])
            },
{
    let lo = lemma_trim_start(s);
    let t = s.skip(lo);
    let k = lemma_trim_end(t);
    let hi = lo + k;
    assert(t.take(k) =~= s.subrange(lo, hi));
    assert forall|i: int| hi <= i < s.len() implies is_white_space(#[trigger] s[i]) by {
        assert(s[i] == t[i - lo]);
    }
    if lo < hi {
        assert(s[lo] == t[0]);
        assert(s[hi - 1] == t[k - 1]);
    }
}

} // verus!
