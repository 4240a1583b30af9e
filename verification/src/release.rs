//! Releases of the upstream feed, and the verified selection of the latest
//! one.
//!
//! A release is identified by its tag; its publish instant is an RFC 3339
//! string that chrono turns into Unix-epoch seconds.  Selection keeps the
//! releases whose tag contains a filter as a substring and picks one with
//! the maximum timestamp; which of two equally-timestamped candidates wins
//! is left open.

use vstd::prelude::*;
use vstd::string::*;

use crate::errors::{UpdateError, UpdateErrorKind};
use crate::text::{contains_sub, has_match};

verus! {

/// One release entry of the upstream feed.
#[derive(Debug)]
pub struct GithubRelease {
    /// The tag, the identity of the release.
    pub tag_name: String,
    /// The publish instant, as the feed sent it: an RFC 3339 timestamp.
    pub published_at: String,
}

impl Clone for GithubRelease {
    fn clone(&self) -> (r: Self)
        ensures
            r == *self,
    {
        GithubRelease { tag_name: self.tag_name.clone(), published_at: self.published_at.clone() }
    }
}

/// The Unix-epoch seconds of the instant an RFC 3339 string denotes, or
/// `None` when the string is not a valid RFC 3339 date-and-time.  The result
/// depends on the characters alone.
pub uninterp spec fn rfc3339_timestamp_of(s: Seq<char>) -> Option<i64>;

/// Relies on chrono's `DateTime::parse_from_rfc3339` and
/// `DateTime::timestamp`: parsing an RFC 3339 string and taking the parsed
/// instant's Unix-epoch seconds is a function of the characters alone.
#[verifier::external_body]
fn parse_rfc3339_timestamp(s: &str) -> (r: Option<i64>)
    ensures
        r == rfc3339_timestamp_of(s@),
{
    match chrono::DateTime::parse_from_rfc3339(s) {
        Ok(dt) => Some(dt.timestamp()),
        Err(_) => None,
    }
}

/// A release paired with its already-resolved publish timestamp.
#[derive(Debug)]
pub struct DatedRelease {
    pub release: GithubRelease,
    /// Unix-epoch seconds of the publish instant.
    pub timestamp: i64,
}

impl Clone for DatedRelease {
    fn clone(&self) -> (r: Self)
        ensures
            r == *self,
    {
        DatedRelease { release: self.release.clone(), timestamp: self.timestamp }
    }
}

/// Whether a release's tag contains `filter` as a substring.
pub open spec fn is_candidate(rel: GithubRelease, filter: Seq<char>) -> bool {
    has_match(rel.tag_name@, filter)
}

/// The timestamp the feed's RFC 3339 publish string of `rel` denotes.
pub open spec fn published_ts(rel: GithubRelease) -> Option<i64> {
    rfc3339_timestamp_of(rel.published_at@)
}

/// Pick an entry with the maximum timestamp; `None` exactly when `v` is
/// empty.  Among equally-timestamped entries the pick is unspecified.
pub fn latest_of_dated(v: &Vec<DatedRelease>) -> (r: Option<DatedRelease>)
    ensures
        match r {
            Some(d) => {
                &&& v@.len() > 0
                &&& exists|k: int| 0 <= k < v@.len() && v@[k] == d
                &&& forall|k: int| 0 <= k < v@.len() ==> v@[k].timestamp <= d.timestamp
            },
            None => v@.len() == 0,
        },
{
    if v.len() == 0 {
        return None;
    }
    let mut best = v[0].clone();
    let ghost mut best_idx: int = 0;
    let mut i: usize = 1;
    while i < v.len()
        invariant
            1 <= i <= v@.len(),
            0 <= best_idx < i,
            v@[best_idx] == best,
            forall|k: int| 0 <= k < i ==> v@[k].timestamp <= best.timestamp,
        decreases v@.len() - i,
    {
        if v[i].timestamp > best.timestamp {
            best = v[i].clone();
            proof {
                best_idx = i as int;
            }
        }
        i += 1;
    }
    Some(best)
}

/// What a successful selection returns: a release of the list whose tag
/// matches the filter, carrying a valid timestamp that no matching release
/// exceeds.
pub open spec fn selection_ok(releases: Seq<GithubRelease>, filter: Seq<char>, rel: GithubRelease) -> bool {
    &&& exists|k: int| 0 <= k < releases.len() && releases[k] == rel
    &&& is_candidate(rel, filter)
    &&& published_ts(rel) is Some
    &&& forall|k: int|
        0 <= k < releases.len() && is_candidate(releases[k], filter) ==> published_ts(
            releases[k],
        ) is Some && published_ts(releases[k]).unwrap() <= published_ts(rel).unwrap()
}

/// What a failed selection returns: `NotFoundError` exactly when no tag
/// matches, `ParseError` exactly when a matching release carries a publish
/// string that is not RFC 3339.
pub open spec fn selection_err(releases: Seq<GithubRelease>, filter: Seq<char>, e: UpdateError) -> bool {
    &&& (e.kind_spec() == UpdateErrorKind::NotFound || e.kind_spec() == UpdateErrorKind::Parse)
    &&& e.kind_spec() == UpdateErrorKind::NotFound ==> forall|k: int|
        0 <= k < releases.len() ==> !is_candidate(releases[k], filter)
    &&& e.kind_spec() == UpdateErrorKind::Parse ==> exists|k: int|
        0 <= k < releases.len() && is_candidate(releases[k], filter) && published_ts(
            releases[k],
        ) is None
}

/// Select the latest release whose tag contains `tag_filter`.
///
/// Exactly one of three things happens: no tag matches and `NotFoundError`
/// comes back; some matching release carries a publish string that is not
/// RFC 3339 and `ParseError` comes back; otherwise the result is a matching
/// release whose timestamp no matching release exceeds.
pub fn latest_nym_release(releases: &Vec<GithubRelease>, tag_filter: &str) -> (r: Result<
    GithubRelease,
    UpdateError,
>)
    ensures
        match r {
            Ok(rel) => selection_ok(releases@, tag_filter@, rel),
            Err(e) => selection_err(releases@, tag_filter@, e),
        },
{
    let mut cands: Vec<DatedRelease> = Vec::new();
    let mut i: usize = 0;
    while i < releases.len()
        invariant
            i <= releases@.len(),
            forall|m: int| #![trigger cands@[m]]
                0 <= m < cands@.len() ==> exists|k: int|
                    #![trigger releases@[k]]
                    0 <= k < i && releases@[k] == cands@[m].release && is_candidate(
                        cands@[m].release,
                        tag_filter@,
                    ) && published_ts(cands@[m].release) == Some(cands@[m].timestamp),
            forall|k: int| #![trigger releases@[k]]
                0 <= k < i && is_candidate(releases@[k], tag_filter@) ==> published_ts(
                    releases@[k],
                ) is Some && exists|m: int|
                    #![trigger cands@[m]]
                    0 <= m < cands@.len() && cands@[m].release == releases@[k] && Some(
                        cands@[m].timestamp,
                    ) == published_ts(releases@[k]),
        decreases releases@.len() - i,
    {
        if contains_sub(releases[i].tag_name.as_str(), tag_filter) {
            match parse_rfc3339_timestamp(releases[i].published_at.as_str()) {
                Some(ts) => {
                    let ghost old_cands = cands@;
                    cands.push(DatedRelease { release: releases[i].clone(), timestamp: ts });
                    proof {
                        assert forall|k: int| #![trigger releases@[k]]
                            0 <= k < i + 1 && is_candidate(releases@[k], tag_filter@) implies
                            published_ts(releases@[k]) is Some && exists|m: int|
                            #![trigger cands@[m]]
                            0 <= m < cands@.len() && cands@[m].release == releases@[k] && Some(
                            cands@[m].timestamp,
                        ) == published_ts(releases@[k]) by {
                            if k == i {
                                assert(cands@[old_cands.len() as int].release == releases@[k]);
                            } else {
                                let m = choose|m: int|
                                    0 <= m < old_cands.len() && old_cands[m].release
                                        == releases@[k] && Some(old_cands[m].timestamp)
                                        == published_ts(releases@[k]);
                                assert(cands@[m] == old_cands[m]);
                            }
                        }
                    }
                },
                None => {
                    let mut msg = "Failed to parse release date: ".to_owned();
                    msg.append(releases[i].published_at.as_str());
                    return Err(UpdateError::ParseError(msg));
                },
            }
        }
        i += 1;
    }
    match latest_of_dated(&cands) {
        Some(best) => Ok(best.release),
        None => {
            let mut msg = "Failed to find latest nym release with tag: ".to_owned();
            msg.append(tag_filter);
            Err(UpdateError::NotFoundError(msg))
        },
    }
}

} // verus!
