//! Verified line handling for descriptor texts: splitting a text into its
//! lines, joining lines back, and the facts tying the two together.
//!
//! A text with `n` newline characters has exactly `n + 1` lines; the lines
//! themselves never contain a newline.

use vstd::prelude::*;
use vstd::string::*;

use crate::text::{find_first_in, first_in, lemma_first_in, views_of};

verus! {

/// The index of the first newline of `s`, or `s.len()` when there is none.
pub open spec fn first_nl(s: Seq<char>) -> int {
    first_in(s, '\n', '\n')
}

/// The lines of `s`: the maximal newline-free pieces between newlines.
pub open spec fn lines_of(s: Seq<char>) -> Seq<Seq<char>>
    decreases s.len(),
{
    let i = first_nl(s);
    if !(0 <= i && i < s.len()) {
        seq![s]
    } else {
        seq![s.subrange(0, i)] + lines_of(s.subrange(i + 1, s.len() as int))
    }
}

/// A text always has at least one line.
pub proof fn lemma_lines_of_len(s: Seq<char>)
    ensures
        lines_of(s).len() >= 1,
    decreases s.len(),
{
    let i = first_nl(s);
    lemma_first_in(s, '\n', '\n');
    if 0 <= i && i < s.len() {
        lemma_lines_of_len(s.subrange(i + 1, s.len() as int));
    }
}

/// No line of a text contains a newline.
pub proof fn lemma_lines_no_nl(s: Seq<char>)
    ensures
        forall|k: int, j: int|
            0 <= k < lines_of(s).len() && 0 <= j < lines_of(s)[k].len() ==> lines_of(s)[k][j]
                != '\n',
    decreases s.len(),
{
    let i = first_nl(s);
    lemma_first_in(s, '\n', '\n');
    if 0 <= i && i < s.len() {
        lemma_lines_no_nl(s.subrange(i + 1, s.len() as int));
        assert forall|k: int, j: int|
            0 <= k < lines_of(s).len() && 0 <= j < lines_of(s)[k].len() implies lines_of(s)[k][j]
            != '\n' by {
            if k == 0 {
                assert(lines_of(s)[0] == s.subrange(0, i));
                assert(s.subrange(0, i)[j] == s[j]);
            } else {
                assert(lines_of(s)[k] == lines_of(s.subrange(i + 1, s.len() as int))[k - 1]);
            }
        }
    } else {
        assert forall|k: int, j: int|
            0 <= k < lines_of(s).len() && 0 <= j < lines_of(s)[k].len() implies lines_of(s)[k][j]
            != '\n' by {
            assert(lines_of(s)[k] == s);
            assert(i == s.len());
        }
    }
}

/// The text whose lines are `parts`: the parts joined with single newlines.
pub open spec fn joined_lines(parts: Seq<Seq<char>>) -> Seq<char>
    decreases parts.len(),
{
    if parts.len() == 0 {
        Seq::empty()
    } else if parts.len() == 1 {
        parts[0]
    } else {
        parts[0] + seq!['\n'] + joined_lines(parts.drop_first())
    }
}

/// Joining newline-free parts and splitting again gives the parts back.
pub proof fn lemma_lines_of_joined(parts: Seq<Seq<char>>)
    requires
        parts.len() >= 1,
        forall|k: int, j: int|
            0 <= k < parts.len() && 0 <= j < parts[k].len() ==> parts[k][j] != '\n',
    ensures
        lines_of(joined_lines(parts)) == parts,
    decreases parts.len(),
{
    let s = joined_lines(parts);
    if parts.len() == 1 {
        assert forall|j: int| 0 <= j < s.len() implies s[j] != '\n' by {
            assert(parts[0][j] != '\n');
        }
        crate::text::lemma_first_in_is(s, '\n', '\n', s.len() as int);
        assert(lines_of(s) =~~= parts);
    } else {
        let p0 = parts[0];
        let rest = joined_lines(parts.drop_first());
        assert(s == p0 + seq!['\n'] + rest);
        assert forall|j: int| 0 <= j < p0.len() implies s[j] != '\n' by {
            assert(s[j] == p0[j]);
        }
        assert(s[p0.len() as int] == '\n');
        crate::text::lemma_first_in_is(s, '\n', '\n', p0.len() as int);
        assert(first_nl(s) == p0.len());
        assert(0 <= first_nl(s) && first_nl(s) < s.len());
        assert(s.subrange(0, p0.len() as int) =~= p0);
        assert(s.subrange(p0.len() as int + 1, s.len() as int) =~= rest);
        assert forall|k: int, j: int|
            0 <= k < parts.drop_first().len() && 0 <= j
                < parts.drop_first()[k].len() implies parts.drop_first()[k][j] != '\n' by {
            assert(parts.drop_first()[k] == parts[k + 1]);
        }
        lemma_lines_of_joined(parts.drop_first());
        assert(lines_of(s) =~~= parts);
    }
}

/// Split `s` into its lines.
pub fn split_lines(s: &str) -> (r: Vec<String>)
    ensures
        views_of(r@) == lines_of(s@),
    decreases s@.len(),
{
    let n = s.unicode_len();
    let i = find_first_in(s, '\n', '\n');
    proof {
        lemma_first_in(s@, '\n', '\n');
    }
    if i == n {
        let mut v: Vec<String> = Vec::new();
        v.push(s.to_owned());
        proof {
            assert(views_of(v@) =~~= lines_of(s@));
        }
        v
    } else {
        let head = s.substring_char(0, i).to_owned();
        let tail = s.substring_char(i + 1, n);
        let mut v = split_lines(tail);
        v.insert(0, head);
        proof {
            assert(tail@ == s@.subrange(i + 1, n as int));
            assert(views_of(v@) =~~= lines_of(s@));
        }
        v
    }
}

/// Join `parts` with single newlines, starting at index `i`.
fn join_from(parts: &Vec<String>, i: usize) -> (r: String)
    requires
        i <= parts@.len(),
    ensures
        r@ == joined_lines(views_of(parts@).skip(i as int)),
    decreases parts@.len() - i,
{
    if i == parts.len() {
        let r = String::new();
        proof {
            assert(views_of(parts@).skip(i as int) =~~= Seq::<Seq<char>>::empty());
        }
        r
    } else if i + 1 == parts.len() {
        let r = parts[i].clone();
        proof {
            assert(views_of(parts@).skip(i as int) =~~= seq![parts@[i as int]@]);
        }
        r
    } else {
        let mut out = parts[i].clone();
        out.append("\n");
        let rest = join_from(parts, i + 1);
        out.append(rest.as_str());
        proof {
            let vs = views_of(parts@).skip(i as int);
            assert(vs.len() >= 2);
            assert(vs[0] == parts@[i as int]@);
            assert(vs.drop_first() =~~= views_of(parts@).skip(i + 1));
            reveal_strlit("\n");
            assert("\n"@ =~= seq!['\n']);
            assert(out@ =~= vs[0] + seq!['\n'] + joined_lines(vs.drop_first()));
        }
        out
    }
}

/// Join `parts` with single newlines.
pub fn join_lines(parts: &Vec<String>) -> (r: String)
    ensures
        r@ == joined_lines(views_of(parts@)),
{
    let r = join_from(parts, 0);
    proof {
        assert(views_of(parts@).skip(0) =~~= views_of(parts@));
    }
    r
}

} // verus!
