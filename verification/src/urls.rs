//! URL construction for the release feed and the download endpoint.

use vstd::prelude::*;
use vstd::string::*;

use crate::assets::NymReleaseAssets;
use crate::errors::UpdateError;

verus! {

/// Path pieces of the release-feed API.
pub enum GithubApiUrl {
    Releases,
    Repos,
}

impl GithubApiUrl {
    /// The path piece, as a spec-level value.
    pub open spec fn url_spec(&self) -> Seq<char> {
        match self {
            GithubApiUrl::Releases => "/releases"@,
            GithubApiUrl::Repos => "/repos"@,
        }
    }

    /// The path piece of this part of the API.
    pub fn url(&self) -> (r: &'static str)
        ensures
            r@ == self.url_spec(),
    {
        match self {
            GithubApiUrl::Releases => "/releases",
            GithubApiUrl::Repos => "/repos",
        }
    }

    /// The spec-level release-list path for a repository.
    pub open spec fn repo_releases_spec(owner: Seq<char>, repo: Seq<char>) -> Seq<char> {
        "/repos"@ + "/"@ + owner + "/"@ + repo + "/releases"@
    }

    /// The release-list path for a repository.
    pub fn repo_releases(owner: String, repo: String) -> (r: String)
        ensures
            r@ == Self::repo_releases_spec(owner@, repo@),
    {
        let mut out = GithubApiUrl::Repos.url().to_owned();
        out.append("/");
        out.append(owner.as_str());
        out.append("/");
        out.append(repo.as_str());
        out.append(GithubApiUrl::Releases.url());
        out
    }
}

/// Which download location an attempt binds to.  The upstream feed offers
/// both a rolling `latest` alias and per-release locations; the two can
/// disagree when a release is published between resolution and download, so
/// the choice is an explicit option rather than a buried constant.
#[derive(Clone, Copy, Debug, PartialEq, Eq, Structural)]
pub enum DownloadUrlMode {
    /// Download whatever the upstream `latest` alias points at.
    LatestAlias,
    /// Download the asset of the resolved release tag.
    PinnedTag,
}

/// The spec-level download URL for an asset under the `latest` alias.
pub open spec fn latest_alias_url_spec(owner: Seq<char>, repo: Seq<char>, name: Seq<char>) -> Seq<
    char,
> {
    "https://github.com/"@ + owner + "/"@ + repo + "/releases/latest/download/"@ + name
}

/// The spec-level download URL for an asset of a pinned release tag.
pub open spec fn pinned_tag_url_spec(
    owner: Seq<char>,
    repo: Seq<char>,
    tag: Seq<char>,
    name: Seq<char>,
) -> Seq<char> {
    "https://github.com/"@ + owner + "/"@ + repo + "/releases/download/"@ + tag + "/"@ + name
}

/// The download URL for `asset`, bound as `mode` says: to the rolling
/// `latest` alias, or to the release with tag `tag`.  Gateway supports no
/// download resolution and fails with `NotSupportedError`.
pub fn latest_release_download_url(
    owner: &str,
    repo: &str,
    asset: &NymReleaseAssets,
    mode: DownloadUrlMode,
    tag: &str,
) -> (r: Result<String, UpdateError>)
    ensures
        match r {
            Ok(url) => asset is MixNode && (match mode {
                DownloadUrlMode::LatestAlias => url@ == latest_alias_url_spec(
                    owner@,
                    repo@,
                    asset.name_spec(),
                ),
                DownloadUrlMode::PinnedTag => url@ == pinned_tag_url_spec(
                    owner@,
                    repo@,
                    tag@,
                    asset.name_spec(),
                ),
            }),
            Err(e) => asset is Gateway && e.kind_spec() == crate::errors::UpdateErrorKind::NotSupported,
        },
{
    match asset {
        NymReleaseAssets::Gateway => Err(
            UpdateError::NotSupportedError("Gateway is not supported yet".to_owned()),
        ),
        NymReleaseAssets::MixNode => {
            let mut out = "https://github.com/".to_owned();
            out.append(owner);
            out.append("/");
            out.append(repo);
            match mode {
                DownloadUrlMode::LatestAlias => {
                    out.append("/releases/latest/download/");
                },
                DownloadUrlMode::PinnedTag => {
                    out.append("/releases/download/");
                    out.append(tag);
                    out.append("/");
                },
            }
            out.append(asset.name());
            Ok(out)
        },
    }
}

} // verus!
