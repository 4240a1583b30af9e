//! Verified whitespace tokenization and marker-field extraction.
//!
//! Tokens are the maximal runs of non-blank characters of a line; fields are
//! the values the supervisor's normalized output carries after markers such
//! as `path=`, delimited by `;` or a further `=`.

use vstd::prelude::*;
use vstd::string::*;

use crate::text::{
    find_first_in, find_sub, first_in, has_match, is_first_match, lemma_first_in,
    lemma_first_match_unique, views_of,
};

verus! {

/// Blank characters separating tokens.
pub open spec fn is_ws(c: char) -> bool {
    c == ' ' || c == '\t'
}

/// The index of the first blank character of `s`, or `s.len()`.
pub open spec fn first_ws(s: Seq<char>) -> int {
    first_in(s, ' ', '\t')
}

/// The whitespace-delimited tokens of `s`, in order.
pub open spec fn tokens_of(s: Seq<char>) -> Seq<Seq<char>>
    decreases s.len(),
{
    if s.len() == 0 {
        Seq::empty()
    } else if is_ws(s[0]) {
        tokens_of(s.drop_first())
    } else {
        let j = first_ws(s);
        if !(0 < j && j < s.len()) {
            seq![s]
        } else {
            seq![s.subrange(0, j)] + tokens_of(s.subrange(j, s.len() as int))
        }
    }
}

/// The whitespace-delimited tokens of `s`.
pub fn tokens(s: &str) -> (r: Vec<String>)
    ensures
        views_of(r@) == tokens_of(s@),
    decreases s@.len(),
{
    let n = s.unicode_len();
    if n == 0 {
        let r: Vec<String> = Vec::new();
        proof {
            assert(views_of(r@) =~~= tokens_of(s@));
        }
        return r;
    }
    let c = s.get_char(0);
    if c == ' ' || c == '\t' {
        let tail = s.substring_char(1, n);
        let r = tokens(tail);
        proof {
            assert(tail@ =~= s@.drop_first());
        }
        r
    } else {
        let j = find_first_in(s, ' ', '\t');
        proof {
            lemma_first_in(s@, ' ', '\t');
            assert(j != 0);
        }
        if j == n {
            let mut v: Vec<String> = Vec::new();
            v.push(s.to_owned());
            proof {
                assert(views_of(v@) =~~= tokens_of(s@));
            }
            v
        } else {
            let head = s.substring_char(0, j).to_owned();
            let tail = s.substring_char(j, n);
            let mut v = tokens(tail);
            v.insert(0, head);
            proof {
                assert(tail@ == s@.subrange(j as int, n as int));
                assert(views_of(v@) =~~= tokens_of(s@));
            }
            v
        }
    }
}

/// The token of `s` at position `idx`, if `s` has that many tokens.
pub fn nth_token(s: &str, idx: usize) -> (r: Option<String>)
    ensures
        match r {
            Some(t) => idx < tokens_of(s@).len() && t@ == tokens_of(s@)[idx as int],
            None => idx >= tokens_of(s@).len(),
        },
{
    let toks = tokens(s);
    if idx < toks.len() {
        let t = toks[idx].clone();
        proof {
            assert(views_of(toks@)[idx as int] == toks@[idx as int]@);
        }
        Some(t)
    } else {
        None
    }
}

/// `s` without leading and trailing blanks.
pub open spec fn trimmed(s: Seq<char>) -> Seq<char>
    decreases s.len(),
{
    if s.len() == 0 {
        s
    } else if is_ws(s[0]) {
        trimmed(s.drop_first())
    } else if is_ws(s[s.len() - 1]) {
        trimmed(s.drop_last())
    } else {
        s
    }
}

/// Drop leading and trailing blanks from `s`.
pub fn trim(s: &str) -> (r: String)
    ensures
        r@ == trimmed(s@),
    decreases s@.len(),
{
    let n = s.unicode_len();
    if n == 0 {
        return s.to_owned();
    }
    let c0 = s.get_char(0);
    if c0 == ' ' || c0 == '\t' {
        let t = s.substring_char(1, n);
        let r = trim(t);
        proof {
            assert(t@ =~= s@.drop_first());
        }
        r
    } else {
        let cl = s.get_char(n - 1);
        if cl == ' ' || cl == '\t' {
            let t = s.substring_char(0, n - 1);
            let r = trim(t);
            proof {
                assert(t@ =~= s@.drop_last());
            }
            r
        } else {
            s.to_owned()
        }
    }
}

/// The field value after the first occurrence of `marker` in `s`: the
/// characters that follow the marker, up to the first `;` or `=`, or to the
/// end of `s`.  `None` when `marker` does not occur.
pub open spec fn field_after(s: Seq<char>, marker: Seq<char>) -> Option<Seq<char>> {
    if !has_match(s, marker) {
        Option::None
    } else {
        let i = choose|i: int| is_first_match(s, marker, i);
        let rest = s.subrange(i + marker.len() as int, s.len() as int);
        Option::Some(rest.subrange(0, first_in(rest, ';', '=')))
    }
}

/// Extract the field value after the first occurrence of `marker` in `s`.
pub fn extract_field(s: &str, marker: &str) -> (r: Option<String>)
    ensures
        match r {
            Some(v) => field_after(s@, marker@) == Option::Some(v@),
            None => field_after(s@, marker@) is None,
        },
{
    match find_sub(s, marker) {
        None => None,
        Some(i) => {
            let n = s.unicode_len();
            let mn = marker.unicode_len();
            let rest = s.substring_char(i + mn, n);
            let k = find_first_in(rest, ';', '=');
            proof {
                lemma_first_in(rest@, ';', '=');
            }
            let v = rest.substring_char(0, k).to_owned();
            proof {
                let i0 = choose|i0: int| is_first_match(s@, marker@, i0);
                lemma_first_match_unique(s@, marker@, i as int, i0);
                assert(rest@ == s@.subrange(i + marker@.len() as int, s@.len() as int));
            }
            Some(v)
        },
    }
}

} // verus!
