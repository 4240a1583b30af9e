use nym_updater::{
    latest_nym_release, latest_of_dated, latest_release_download_url, DatedRelease,
    DownloadUrlMode, GithubApiUrl, GithubRelease, NymReleaseAssets, RestResponse, UpdateError,
    UpdateErrorKind,
};

fn rel(tag: &str, at: &str) -> GithubRelease {
    GithubRelease { tag_name: tag.to_string(), published_at: at.to_string() }
}

#[test]
fn selection_returns_later_release_regardless_of_order() {
    let earlier = rel("nym-binaries-v1.0.0", "2023-01-10T12:00:00Z");
    let later = rel("nym-binaries-v1.1.0", "2023-05-02T08:30:00Z");

    let feed = vec![earlier.clone(), later.clone()];
    let picked = latest_nym_release(&feed, "nym-binaries").unwrap();
    assert_eq!(picked.tag_name, "nym-binaries-v1.1.0");

    let feed_reversed = vec![later, earlier];
    let picked = latest_nym_release(&feed_reversed, "nym-binaries").unwrap();
    assert_eq!(picked.tag_name, "nym-binaries-v1.1.0");
}

#[test]
fn selection_compares_instants_not_strings() {
    // The first string sorts later lexically, but its instant is earlier
    // once the offset is applied.
    let a = rel("nym-binaries-a", "2023-12-31T23:59:59+12:00");
    let b = rel("nym-binaries-b", "2023-12-31T20:00:00Z");
    let feed = vec![a, b];
    let picked = latest_nym_release(&feed, "nym-binaries").unwrap();
    assert_eq!(picked.tag_name, "nym-binaries-b");
}

#[test]
fn selection_tie_is_one_of_the_candidates() {
    // Two candidates share the publish instant; which one wins is left
    // open, but it must be one of them.
    let a = rel("nym-binaries-a", "2023-01-01T00:00:00Z");
    let b = rel("nym-binaries-b", "2023-01-01T00:00:00Z");
    let picked = latest_nym_release(&vec![a, b], "nym-binaries").unwrap();
    assert!(
        picked.tag_name == "nym-binaries-a" || picked.tag_name == "nym-binaries-b"
    );
}

#[test]
fn selection_ignores_non_matching_tags() {
    let feed = vec![
        rel("wallet-v3.0.0", "2024-01-01T00:00:00Z"),
        rel("nym-binaries-v1.0.0", "2023-01-01T00:00:00Z"),
    ];
    let picked = latest_nym_release(&feed, "nym-binaries").unwrap();
    assert_eq!(picked.tag_name, "nym-binaries-v1.0.0");
}

#[test]
fn selection_without_match_is_not_found() {
    let feed = vec![rel("wallet-v3.0.0", "2024-01-01T00:00:00Z")];
    let e = latest_nym_release(&feed, "nym-binaries").unwrap_err();
    assert_eq!(e.kind(), UpdateErrorKind::NotFound);
    let e = latest_nym_release(&Vec::new(), "nym-binaries").unwrap_err();
    assert_eq!(e.kind(), UpdateErrorKind::NotFound);
}

#[test]
fn selection_with_bad_timestamp_is_parse_error() {
    let feed = vec![rel("nym-binaries-v1.0.0", "not a timestamp")];
    let e = latest_nym_release(&feed, "nym-binaries").unwrap_err();
    assert_eq!(e.kind(), UpdateErrorKind::Parse);
}

#[test]
fn latest_of_dated_picks_maximum() {
    let v = vec![
        DatedRelease { release: rel("a", ""), timestamp: 10 },
        DatedRelease { release: rel("b", ""), timestamp: 30 },
        DatedRelease { release: rel("c", ""), timestamp: 20 },
    ];
    let best = latest_of_dated(&v).unwrap();
    assert_eq!(best.timestamp, 30);
    assert_eq!(best.release.tag_name, "b");
    assert!(latest_of_dated(&Vec::new()).is_none());
}

#[test]
fn download_url_latest_alias() {
    let url = latest_release_download_url(
        "nymtech",
        "nym",
        &NymReleaseAssets::MixNode,
        DownloadUrlMode::LatestAlias,
        "nym-binaries-v1.1.0",
    )
    .unwrap();
    assert_eq!(
        url,
        "https://github.com/nymtech/nym/releases/latest/download/nym-mixnode"
    );
}

#[test]
fn download_url_pinned_tag() {
    let url = latest_release_download_url(
        "nymtech",
        "nym",
        &NymReleaseAssets::MixNode,
        DownloadUrlMode::PinnedTag,
        "nym-binaries-v1.1.0",
    )
    .unwrap();
    assert_eq!(
        url,
        "https://github.com/nymtech/nym/releases/download/nym-binaries-v1.1.0/nym-mixnode"
    );
}

#[test]
fn download_url_gateway_not_supported() {
    let e = latest_release_download_url(
        "nymtech",
        "nym",
        &NymReleaseAssets::Gateway,
        DownloadUrlMode::LatestAlias,
        "t",
    )
    .unwrap_err();
    assert_eq!(e.kind(), UpdateErrorKind::NotSupported);
}

#[test]
fn api_url_pieces() {
    assert_eq!(GithubApiUrl::Repos.url(), "/repos");
    assert_eq!(GithubApiUrl::Releases.url(), "/releases");
    assert_eq!(
        GithubApiUrl::repo_releases("nymtech".to_string(), "nym".to_string()),
        "/repos/nymtech/nym/releases"
    );
}

#[test]
fn asset_names() {
    assert_eq!(NymReleaseAssets::MixNode.name(), "nym-mixnode");
    assert_eq!(NymReleaseAssets::Gateway.name(), "nym-gateway");
    assert_eq!(NymReleaseAssets::get_all().len(), 2);
    assert_eq!(NymReleaseAssets::get_all_as_string(), vec!["nym-mixnode", "nym-gateway"]);
}

#[test]
fn rest_response_maps_to_response_error() {
    let ok: RestResponse<u32> = RestResponse::Success(7);
    assert_eq!(ok.into_result().unwrap(), 7);
    let err: RestResponse<u32> = RestResponse::Error { message: "raw body".to_string() };
    let e = err.into_result().unwrap_err();
    assert_eq!(e.kind(), UpdateErrorKind::Response);
    assert_eq!(e.message(), "raw body");
}

#[test]
fn error_kinds_and_messages() {
    let cases = vec![
        (UpdateError::NetworkError("a".into()), UpdateErrorKind::Network),
        (UpdateError::ParseError("b".into()), UpdateErrorKind::Parse),
        (UpdateError::NotFoundError("c".into()), UpdateErrorKind::NotFound),
        (UpdateError::NotSupportedError("d".into()), UpdateErrorKind::NotSupported),
        (UpdateError::UnitNotFoundError("e".into()), UpdateErrorKind::UnitNotFound),
        (UpdateError::PermissionError("f".into()), UpdateErrorKind::Permission),
        (UpdateError::DownloadError("g".into()), UpdateErrorKind::Download),
        (UpdateError::ResponseError("h".into()), UpdateErrorKind::Response),
    ];
    let expected = ["a", "b", "c", "d", "e", "f", "g", "h"];
    for (i, (e, kind)) in cases.iter().enumerate() {
        assert_eq!(e.kind(), *kind);
        assert_eq!(e.message(), expected[i]);
    }
}
