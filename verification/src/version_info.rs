//! Parsing of process output the updater depends on.
//!
//! The managed binary, invoked with its version flag, must emit a line
//! containing the literal marker `Build Version` whose third
//! whitespace-delimited token is the version string.  This format is a
//! load-bearing external contract, stated here rather than hidden in
//! generic parsing.  The unit text's embedded node id is recovered the same
//! way: the fourth token of the first line containing `id`.

use vstd::prelude::*;
use vstd::string::*;

use crate::lines::{lines_of, split_lines};
use crate::text::{contains_sub, has_match, views_of};
use crate::tokens::{nth_token, tokens_of};

verus! {

/// The index of the first line of `ls` containing `marker`, or `ls.len()`.
pub open spec fn first_marker_line(ls: Seq<Seq<char>>, marker: Seq<char>) -> int
    decreases ls.len(),
{
    if ls.len() == 0 {
        0
    } else if has_match(ls[0], marker) {
        0
    } else {
        1 + first_marker_line(ls.drop_first(), marker)
    }
}

/// Any index with the first-marker-line property is [`first_marker_line`].
pub proof fn lemma_first_marker_line_is(ls: Seq<Seq<char>>, marker: Seq<char>, i: int)
    requires
        0 <= i <= ls.len(),
        i < ls.len() ==> has_match(ls[i], marker),
        forall|j: int| 0 <= j < i ==> !has_match(ls[j], marker),
    ensures
        i == first_marker_line(ls, marker),
    decreases ls.len(),
{
    if ls.len() == 0 {
    } else if has_match(ls[0], marker) {
    } else {
        assert(i != 0);
        lemma_first_marker_line_is(ls.drop_first(), marker, i - 1);
        assert(forall|j: int| 0 <= j < i - 1 ==> ls.drop_first()[j] == ls[j + 1]);
    }
}

/// The token at position `idx` of the first line of `text` that contains
/// `marker`; `None` when no line contains the marker or that line has too
/// few tokens.
pub open spec fn marker_token_of(text: Seq<char>, marker: Seq<char>, idx: int) -> Option<
    Seq<char>,
> {
    let ls = lines_of(text);
    let i = first_marker_line(ls, marker);
    if !(0 <= i && i < ls.len()) {
        Option::None
    } else {
        let toks = tokens_of(ls[i]);
        if !(0 <= idx && idx < toks.len()) {
            Option::None
        } else {
            Option::Some(toks[idx])
        }
    }
}

/// Extract the token at position `idx` of the first line of `text` that
/// contains `marker`.
pub fn marker_line_token(text: &str, marker: &str, idx: usize) -> (r: Option<String>)
    ensures
        match r {
            Some(t) => marker_token_of(text@, marker@, idx as int) == Option::Some(t@),
            None => marker_token_of(text@, marker@, idx as int) is None,
        },
{
    let ls = split_lines(text);
    let mut i: usize = 0;
    while i < ls.len()
        invariant
            i <= ls@.len(),
            views_of(ls@) == lines_of(text@),
            forall|j: int| 0 <= j < i ==> !has_match(#[trigger] ls@[j]@, marker@),
        decreases ls@.len() - i,
    {
        if contains_sub(ls[i].as_str(), marker) {
            proof {
                assert forall|j: int| 0 <= j < i implies !has_match(
                    #[trigger] lines_of(text@)[j],
                    marker@,
                ) by {
                    assert(lines_of(text@)[j] == ls@[j]@);
                }
                lemma_first_marker_line_is(lines_of(text@), marker@, i as int);
            }
            return nth_token(ls[i].as_str(), idx);
        }
        i += 1;
    }
    proof {
        assert forall|j: int| 0 <= j < ls@.len() implies !has_match(
            #[trigger] lines_of(text@)[j],
            marker@,
        ) by {
            assert(lines_of(text@)[j] == ls@[j]@);
        }
        lemma_first_marker_line_is(lines_of(text@), marker@, ls@.len() as int);
    }
    None
}

} // verus!
