//! Verified character-level text utilities: equality, substring search and
//! first-occurrence replacement.
//!
//! Everything is specified over `Seq<char>` views of `&str` and `String`.

use vstd::prelude::*;
use vstd::string::*;

verus! {

/// `needle` occurs in `hay` starting at index `i`.
pub open spec fn match_at(hay: Seq<char>, needle: Seq<char>, i: int) -> bool {
    &&& 0 <= i
    &&& i + needle.len() <= hay.len()
    &&& hay.subrange(i, i + needle.len() as int) == needle
}

/// `needle` occurs somewhere in `hay`.
pub open spec fn has_match(hay: Seq<char>, needle: Seq<char>) -> bool {
    exists|i: int| match_at(hay, needle, i)
}

/// `i` is the first index at which `needle` occurs in `hay`.
pub open spec fn is_first_match(hay: Seq<char>, needle: Seq<char>, i: int) -> bool {
    &&& match_at(hay, needle, i)
    &&& forall|j: int| 0 <= j < i ==> !match_at(hay, needle, j)
}

/// The first match index is unique.
pub proof fn lemma_first_match_unique(hay: Seq<char>, needle: Seq<char>, i: int, j: int)
    requires
        is_first_match(hay, needle, i),
        is_first_match(hay, needle, j),
    ensures
        i == j,
{
    if i < j {
        assert(!match_at(hay, needle, i));
    } else if j < i {
        assert(!match_at(hay, needle, j));
    }
}

/// The index of the first character of `s` equal to `a` or to `b`, or
/// `s.len()` when neither occurs.
pub open spec fn first_in(s: Seq<char>, a: char, b: char) -> int
    decreases s.len(),
{
    if s.len() == 0 {
        0
    } else if s[0] == a || s[0] == b {
        0
    } else {
        1 + first_in(s.drop_first(), a, b)
    }
}

/// What [`first_in`] returns: an in-range index of the first hit, or the
/// length when there is none.
pub proof fn lemma_first_in(s: Seq<char>, a: char, b: char)
    ensures
        0 <= first_in(s, a, b) <= s.len(),
        first_in(s, a, b) < s.len() ==> (s[first_in(s, a, b)] == a || s[first_in(s, a, b)] == b),
        forall|j: int| 0 <= j < first_in(s, a, b) ==> s[j] != a && s[j] != b,
    decreases s.len(),
{
    if s.len() == 0 {
    } else if s[0] == a || s[0] == b {
    } else {
        lemma_first_in(s.drop_first(), a, b);
        assert forall|j: int| 0 <= j < first_in(s, a, b) implies s[j] != a && s[j] != b by {
            if j > 0 {
                assert(s.drop_first()[j - 1] == s[j]);
            }
        }
    }
}

/// Any index with the first-hit property is [`first_in`].
pub proof fn lemma_first_in_is(s: Seq<char>, a: char, b: char, i: int)
    requires
        0 <= i <= s.len(),
        i < s.len() ==> (s[i] == a || s[i] == b),
        forall|j: int| 0 <= j < i ==> s[j] != a && s[j] != b,
    ensures
        i == first_in(s, a, b),
    decreases s.len(),
{
    if s.len() == 0 {
    } else if s[0] == a || s[0] == b {
    } else {
        assert(i != 0);
        lemma_first_in_is(s.drop_first(), a, b, i - 1);
        assert(forall|j: int| 0 <= j < i - 1 ==> s.drop_first()[j] == s[j + 1]);
    }
}

/// The index of the first character of `s` equal to `a` or to `b`, or the
/// length of `s` when neither occurs.
pub fn find_first_in(s: &str, a: char, b: char) -> (r: usize)
    ensures
        r as int == first_in(s@, a, b),
{
    let n = s.unicode_len();
    let mut i: usize = 0;
    while i < n
        invariant
            i <= n,
            n == s@.len(),
            forall|j: int| 0 <= j < i ==> s@[j] != a && s@[j] != b,
        decreases n - i,
    {
        let c = s.get_char(i);
        if c == a || c == b {
            proof {
                lemma_first_in_is(s@, a, b, i as int);
            }
            return i;
        }
        i += 1;
    }
    proof {
        lemma_first_in_is(s@, a, b, n as int);
    }
    n
}

/// The `Seq<char>` views of a sequence of strings.
pub open spec fn views_of(v: Seq<String>) -> Seq<Seq<char>> {
    v.map_values(|s: String| s@)
}

/// Character-wise string equality.
pub fn str_eq(a: &str, b: &str) -> (r: bool)
    ensures
        r == (a@ == b@),
{
    let an = a.unicode_len();
    let bn = b.unicode_len();
    if an != bn {
        proof {
            if a@ == b@ {
                assert(a@.len() == b@.len());
            }
        }
        return false;
    }
    let mut i: usize = 0;
    while i < an
        invariant
            i <= an,
            an == a@.len(),
            an == b@.len(),
            forall|j: int| 0 <= j < i ==> a@[j] == b@[j],
        decreases an - i,
    {
        if a.get_char(i) != b.get_char(i) {
            proof {
                if a@ == b@ {
                    assert(a@[i as int] == b@[i as int]);
                }
            }
            return false;
        }
        i += 1;
    }
    proof {
        assert(a@ =~= b@);
    }
    true
}

/// Whether `needle` occurs in `hay` at index `i`.
pub fn match_at_exec(hay: &str, needle: &str, i: usize) -> (r: bool)
    ensures
        r == match_at(hay@, needle@, i as int),
{
    let hn = hay.unicode_len();
    let nn = needle.unicode_len();
    if nn > hn || i > hn - nn {
        proof {
            assert(i + needle@.len() > hay@.len());
        }
        return false;
    }
    let mut j: usize = 0;
    while j < nn
        invariant
            j <= nn,
            hn == hay@.len(),
            nn == needle@.len(),
            nn <= hn,
            i <= hn - nn,
            forall|k: int| 0 <= k < j ==> hay@[i + k] == needle@[k],
        decreases nn - j,
    {
        if hay.get_char(i + j) != needle.get_char(j) {
            proof {
                let sub = hay@.subrange(i as int, i + needle@.len() as int);
                if sub == needle@ {
                    assert(sub[j as int] == needle@[j as int]);
                    assert(sub[j as int] == hay@[i + j]);
                }
            }
            return false;
        }
        j += 1;
    }
    proof {
        assert(hay@.subrange(i as int, i + needle@.len() as int) =~= needle@);
    }
    true
}

/// The index of the first occurrence of `needle` in `hay`, if any.
pub fn find_sub(hay: &str, needle: &str) -> (r: Option<usize>)
    ensures
        match r {
            Some(i) => is_first_match(hay@, needle@, i as int),
            None => !has_match(hay@, needle@),
        },
{
    let hn = hay.unicode_len();
    let nn = needle.unicode_len();
    if nn > hn {
        proof {
            assert(forall|i: int| match_at(hay@, needle@, i) ==> i + needle@.len() <= hay@.len());
        }
        return None;
    }
    if nn == 0 {
        proof {
            assert(hay@.subrange(0, 0) =~= needle@);
        }
        return Some(0);
    }
    let mut i: usize = 0;
    while i <= hn - nn
        invariant
            hn == hay@.len(),
            nn == needle@.len(),
            1 <= nn <= hn,
            i <= hn - nn + 1,
            forall|j: int| 0 <= j < i ==> !match_at(hay@, needle@, j),
        decreases hn - nn - i + 1,
    {
        if match_at_exec(hay, needle, i) {
            return Some(i);
        }
        i += 1;
    }
    proof {
        assert(forall|j: int| match_at(hay@, needle@, j) ==> 0 <= j <= hn - nn);
    }
    None
}

/// Whether `needle` occurs in `hay` as a contiguous substring.
pub fn contains_sub(hay: &str, needle: &str) -> (r: bool)
    ensures
        r == has_match(hay@, needle@),
{
    match find_sub(hay, needle) {
        Some(_) => true,
        None => false,
    }
}

/// Whether `s` starts with `prefix`.
pub fn starts_with(s: &str, prefix: &str) -> (r: bool)
    ensures
        r == match_at(s@, prefix@, 0),
{
    match_at_exec(s, prefix, 0)
}

/// The spec-level result of replacing the first occurrence of `needle` at
/// index `i` of `hay` with `replacement`.
pub open spec fn spliced(hay: Seq<char>, needle: Seq<char>, replacement: Seq<char>, i: int) -> Seq<
    char,
> {
    hay.subrange(0, i) + replacement + hay.subrange(i + needle.len() as int, hay.len() as int)
}

/// The index of the first occurrence of `needle` in `hay`; meaningful only
/// when `needle` occurs.
pub open spec fn first_match_idx(hay: Seq<char>, needle: Seq<char>) -> int {
    choose|i: int| is_first_match(hay, needle, i)
}

/// The spec-level result of [`replace_first`]: `hay` with the first
/// occurrence of `needle` replaced by `replacement`, or `hay` itself when
/// `needle` does not occur.
pub open spec fn replaced_first(hay: Seq<char>, needle: Seq<char>, replacement: Seq<char>) -> Seq<
    char,
> {
    if has_match(hay, needle) {
        spliced(hay, needle, replacement, first_match_idx(hay, needle))
    } else {
        hay
    }
}

/// Replace the first occurrence of `needle` in `hay` with `replacement`;
/// leave `hay` unchanged when `needle` does not occur.
pub fn replace_first(hay: &str, needle: &str, replacement: &str) -> (r: String)
    ensures
        r@ == replaced_first(hay@, needle@, replacement@),
        !has_match(hay@, needle@) ==> r@ == hay@,
        forall|i: int|
            is_first_match(hay@, needle@, i) ==> r@ == spliced(hay@, needle@, replacement@, i),
{
    match find_sub(hay, needle) {
        None => hay.to_owned(),
        Some(i) => {
            let hn = hay.unicode_len();
            let nn = needle.unicode_len();
            let mut out = hay.substring_char(0, i).to_owned();
            out.append(replacement);
            out.append(hay.substring_char(i + nn, hn));
            proof {
                assert(out@ =~= spliced(hay@, needle@, replacement@, i as int));
                assert forall|i2: int| is_first_match(hay@, needle@, i2) implies out@ == spliced(
                    hay@,
                    needle@,
                    replacement@,
                    i2,
                ) by {
                    lemma_first_match_unique(hay@, needle@, i as int, i2);
                }
                assert(is_first_match(hay@, needle@, first_match_idx(hay@, needle@)));
            }
            out
        },
    }
}

} // verus!
