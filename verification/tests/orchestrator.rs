use nym_updater::{
    AppSelectOption, AssetState, AttemptState, DownloadUrlMode, GithubRelease,
    NymAssetUpdateConfig, NymConfigFileUtil, NymReleaseAssets, NymReleaseConfig,
    NymUpdateAssetSelectPrompt, NymUpdateResult, NymUpdater, UpdateAction, UpdateError,
    UpdateErrorKind, UpdateEvent,
};

fn rel(tag: &str, at: &str) -> GithubRelease {
    GithubRelease { tag_name: tag.to_string(), published_at: at.to_string() }
}

fn cfg(tag: &str) -> NymReleaseConfig {
    NymReleaseConfig {
        release_tag: tag.to_string(),
        assets: vec![
            NymAssetUpdateConfig {
                name: "nym-mixnode".to_string(),
                auto_update_enabled: true,
                index: 0,
            },
            NymAssetUpdateConfig {
                name: "nym-gateway".to_string(),
                auto_update_enabled: false,
                index: 1,
            },
        ],
    }
}

fn mixnode() -> (NymUpdater, AttemptState, UpdateAction) {
    NymUpdater::init(NymReleaseAssets::MixNode, DownloadUrlMode::LatestAlias)
}

fn failure_kind(s: &AttemptState) -> UpdateErrorKind {
    match s {
        AttemptState::Done(NymUpdateResult::Failure(e)) => e.kind(),
        _ => panic!("not a failure state"),
    }
}

#[test]
fn unchanged_state_yields_not_necessary() {
    // With the feed and the local state unchanged, every attempt ends the
    // same way: NotNecessary, touching nothing.
    for _ in 0..3 {
        let (u, s0, a0) = mixnode();
        assert!(matches!(a0, UpdateAction::FetchReleaseFeed));
        let feed = vec![rel("nym-binaries-v1.1.0", "2023-05-02T08:30:00Z")];
        let (s1, a1) = u.step(s0, UpdateEvent::FeedLoaded(Ok(feed)));
        assert!(matches!(a1, UpdateAction::LoadLocalState));
        let (s2, a2) = u.step(s1, UpdateEvent::LocalStateLoaded(Ok(cfg("nym-binaries-v1.1.0"))));
        assert!(matches!(s2, AttemptState::Done(NymUpdateResult::NotNecessary)));
        assert!(matches!(a2, UpdateAction::NoAction));
    }
}

#[test]
fn missing_local_state_fails_with_not_found() {
    let (u, s0, _) = mixnode();
    let feed = vec![rel("nym-binaries-v1.1.0", "2023-05-02T08:30:00Z")];
    let (s1, _) = u.step(s0, UpdateEvent::FeedLoaded(Ok(feed)));
    let (s2, a2) = u.step(
        s1,
        UpdateEvent::LocalStateLoaded(Err("auto_update_config.json is missing".to_string())),
    );
    assert_eq!(failure_kind(&s2), UpdateErrorKind::NotFound);
    assert!(matches!(a2, UpdateAction::NoAction));
}

#[test]
fn invalid_local_schema_fails_with_not_found() {
    let (u, s0, _) = mixnode();
    let feed = vec![rel("nym-binaries-v1.1.0", "2023-05-02T08:30:00Z")];
    let (s1, _) = u.step(s0, UpdateEvent::FeedLoaded(Ok(feed)));
    let mut bad = cfg("nym-binaries-v1.0.0");
    bad.assets[1].index = 5;
    let (s2, _) = u.step(s1, UpdateEvent::LocalStateLoaded(Ok(bad)));
    assert_eq!(failure_kind(&s2), UpdateErrorKind::NotFound);
}

#[test]
fn gateway_fails_fast_before_any_download() {
    let (u, s0, _) = NymUpdater::init(NymReleaseAssets::Gateway, DownloadUrlMode::LatestAlias);
    let feed = vec![rel("nym-binaries-v1.1.0", "2023-05-02T08:30:00Z")];
    let (s1, _) = u.step(s0, UpdateEvent::FeedLoaded(Ok(feed)));
    let (s2, a2) = u.step(s1, UpdateEvent::LocalStateLoaded(Ok(cfg("nym-binaries-v1.0.0"))));
    assert_eq!(failure_kind(&s2), UpdateErrorKind::NotSupported);
    assert!(matches!(a2, UpdateAction::NoAction));
}

#[test]
fn gateway_path_resolution_not_supported() {
    let (u, _, _) = NymUpdater::init(NymReleaseAssets::Gateway, DownloadUrlMode::LatestAlias);
    let e = u.systemd_asset_path("{ path=/x ; }").unwrap_err();
    assert_eq!(e.kind(), UpdateErrorKind::NotSupported);
}

#[test]
fn state_mapping() {
    let (u, _, _) = mixnode();
    assert_eq!(u.current_asset_state("active").unwrap(), AssetState::Running);
    assert_eq!(u.current_asset_state("inactive").unwrap(), AssetState::Stopped);
    let e = u.current_asset_state("").unwrap_err();
    assert_eq!(e.kind(), UpdateErrorKind::UnitNotFound);
    let e = u.current_asset_state("failed").unwrap_err();
    assert_eq!(e.kind(), UpdateErrorKind::UnitNotFound);
}

#[test]
fn feed_fetch_failure_is_reported_as_given() {
    let (u, s0, _) = mixnode();
    let (s1, a1) = u.step(
        s0,
        UpdateEvent::FeedLoaded(Err(UpdateError::NetworkError("connect refused".to_string()))),
    );
    assert_eq!(failure_kind(&s1), UpdateErrorKind::Network);
    assert!(matches!(a1, UpdateAction::NoAction));
}

#[test]
fn mismatched_event_fails() {
    let (u, s0, _) = mixnode();
    let (s1, a1) = u.step(s0, UpdateEvent::ServiceStarted(Ok(())));
    assert_eq!(failure_kind(&s1), UpdateErrorKind::Parse);
    assert!(matches!(a1, UpdateAction::NoAction));
}

/// Drive one complete successful attempt and check every decision and the
/// order of the phases on the way.
#[test]
fn full_attempt_applies_update_in_order() {
    let (u, s, a) = mixnode();
    assert!(matches!(a, UpdateAction::FetchReleaseFeed));

    let feed = vec![
        rel("nym-binaries-v1.0.0", "2023-01-10T12:00:00Z"),
        rel("nym-binaries-v1.1.0", "2023-05-02T08:30:00Z"),
    ];
    let (s, a) = u.step(s, UpdateEvent::FeedLoaded(Ok(feed)));
    assert!(matches!(a, UpdateAction::LoadLocalState));

    let (s, a) = u.step(s, UpdateEvent::LocalStateLoaded(Ok(cfg("nym-binaries-v1.0.0"))));
    match &a {
        UpdateAction::Download { url, dest } => {
            assert_eq!(url, "https://github.com/nymtech/nym/releases/latest/download/nym-mixnode");
            assert_eq!(dest, "nym-binaries-v1.1.0-nym-mixnode");
        },
        other => panic!("expected a download, got {:?}", other),
    }

    let (s, a) = u.step(s, UpdateEvent::BinaryInstalled(Ok(())));
    assert!(matches!(a, UpdateAction::QueryServiceState));

    let (s, a) = u.step(s, UpdateEvent::ServiceStateReported(Ok("active".to_string())));
    assert!(matches!(a, UpdateAction::StopService));

    let (s, a) = u.step(s, UpdateEvent::ServiceStopped(Ok(())));
    match &a {
        UpdateAction::ResolveInstallPath { path } => {
            assert_eq!(path, "nym-binaries-v1.1.0-nym-mixnode")
        },
        other => panic!("expected path resolution, got {:?}", other),
    }

    let (s, a) = u.step(
        s,
        UpdateEvent::InstallPathResolved(Ok("/work/nym-binaries-v1.1.0-nym-mixnode".to_string())),
    );
    assert!(matches!(a, UpdateAction::QueryUnitText));

    let unit_text = "[Service]\nExecStart=/opt/old/bin run --id n1\n";
    let (s, a) = u.step(s, UpdateEvent::UnitTextReported(Ok(unit_text.to_string())));
    assert!(matches!(a, UpdateAction::ResolvePublicIp));

    let (s, a) = u.step(s, UpdateEvent::PublicIpReported(Ok("5.6.7.8".to_string())));
    match &a {
        UpdateAction::RunNodeInit { path, id, ip } => {
            assert_eq!(path, "/work/nym-binaries-v1.1.0-nym-mixnode");
            assert_eq!(id, "n1");
            assert_eq!(ip, "5.6.7.8");
        },
        other => panic!("expected the node init, got {:?}", other),
    }

    let (s, a) = u.step(s, UpdateEvent::NodeInitialized(Ok(())));
    match &a {
        UpdateAction::QueryBinaryVersion { path } => {
            assert_eq!(path, "/work/nym-binaries-v1.1.0-nym-mixnode")
        },
        other => panic!("expected the version query, got {:?}", other),
    }

    let version_out = "nym-mixnode\nBuild Version:  1.1.0\nCommit SHA: abc";
    let (s, a) = u.step(s, UpdateEvent::BinaryVersionReported(Ok(version_out.to_string())));
    assert!(matches!(a, UpdateAction::QueryExecStart));

    let show = "{ path=/opt/old/bin ; argv[]=/opt/old/bin --id n1 --host 1.2.3.4 ; flags= }";
    let (s, a) = u.step(s, UpdateEvent::ExecStartReported(Ok(show.to_string())));
    assert!(matches!(a, UpdateAction::ReadDescriptor));

    let descriptor = "[Unit]\nDescription=Nym nym-mixnode 1.0.0\n[Service]\nExecStart=/opt/old/bin --id n1 --host 1.2.3.4";
    let (s, a) = u.step(s, UpdateEvent::DescriptorRead(Ok(descriptor.to_string())));
    match &a {
        UpdateAction::WriteDescriptor { text } => {
            assert_eq!(
                text,
                "[Unit]\nDescription=Nym nym-mixnode 1.1.0\n[Service]\nExecStart=/work/nym-binaries-v1.1.0-nym-mixnode --id n1 --host 1.2.3.4"
            );
        },
        other => panic!("expected the descriptor write, got {:?}", other),
    }

    // The reload comes only after both fields are written, and before the
    // start.
    let (s, a) = u.step(s, UpdateEvent::DescriptorWritten(Ok(())));
    assert!(matches!(a, UpdateAction::ReloadDaemon));

    let (s, a) = u.step(s, UpdateEvent::DaemonReloaded(Ok(())));
    assert!(matches!(a, UpdateAction::StartService));

    // The save comes only after the start succeeded, and records the new
    // tag with the preferences kept.
    let (s, a) = u.step(s, UpdateEvent::ServiceStarted(Ok(())));
    match &a {
        UpdateAction::SaveLocalState { config } => {
            assert_eq!(config.release_tag, "nym-binaries-v1.1.0");
            assert_eq!(config.assets.len(), 2);
            assert_eq!(config.assets[0].name, "nym-mixnode");
        },
        other => panic!("expected the save, got {:?}", other),
    }

    let (s, a) = u.step(s, UpdateEvent::LocalStateSaved(Ok(())));
    assert!(matches!(
        s,
        AttemptState::Done(NymUpdateResult::Success { persist_error: None })
    ));
    assert!(matches!(a, UpdateAction::NoAction));
}

#[test]
fn persist_failure_still_reports_success_with_warning() {
    let (u, _, _) = mixnode();
    let s = AttemptState::AwaitingPersist { latest: rel("nym-binaries-v1.1.0", "") };
    let (s, _) = u.step(s, UpdateEvent::LocalStateSaved(Err("disk full".to_string())));
    match s {
        AttemptState::Done(NymUpdateResult::Success { persist_error }) => {
            assert_eq!(persist_error, Some("disk full".to_string()));
        },
        other => panic!("expected success with a warning, got {:?}", other),
    }
}

#[test]
fn unavailable_unit_fails_the_attempt() {
    let (u, _, _) = mixnode();
    let s = AttemptState::AwaitingServiceState {
        latest: rel("nym-binaries-v1.1.0", ""),
        local: cfg("nym-binaries-v1.0.0"),
    };
    let (s, _) = u.step(s, UpdateEvent::ServiceStateReported(Ok("".to_string())));
    assert_eq!(failure_kind(&s), UpdateErrorKind::UnitNotFound);
}

#[test]
fn stopped_service_skips_the_stop() {
    let (u, _, _) = mixnode();
    let s = AttemptState::AwaitingServiceState {
        latest: rel("nym-binaries-v1.1.0", ""),
        local: cfg("nym-binaries-v1.0.0"),
    };
    let (_, a) = u.step(s, UpdateEvent::ServiceStateReported(Ok("inactive".to_string())));
    assert!(matches!(a, UpdateAction::ResolveInstallPath { .. }));
}

#[test]
fn update_if_needed_is_tag_inequality() {
    let (u, _, _) = mixnode();
    let latest = rel("nym-binaries-v1.1.0", "");
    assert!(u.update_if_needed(&latest, &cfg("nym-binaries-v1.0.0")));
    assert!(!u.update_if_needed(&latest, &cfg("nym-binaries-v1.1.0")));
    // a "downgrade" is indistinguishable from an upgrade
    assert!(u.update_if_needed(&rel("nym-binaries-v0.9.0", ""), &cfg("nym-binaries-v1.1.0")));
}

#[test]
fn helper_parsers() {
    let (u, _, _) = mixnode();
    assert_eq!(
        u.asset_build_version("Build Version:  1.1.4\n").unwrap(),
        "1.1.4"
    );
    assert_eq!(u.asset_build_version("nothing").unwrap_err().kind(), UpdateErrorKind::Parse);
    assert_eq!(
        u.node_id("ExecStart=/b run --id mynode\n").unwrap(),
        "mynode"
    );
    assert_eq!(u.node_id("no marker").unwrap_err().kind(), UpdateErrorKind::Parse);
    assert_eq!(
        u.systemd_asset_path("{ path=/opt/old/bin ; argv[]=x }").unwrap(),
        "/opt/old/bin"
    );
    assert_eq!(
        u.latest_asset_path(&rel("nym-binaries-v1.1.0", "")),
        "nym-binaries-v1.1.0-nym-mixnode"
    );
}

#[test]
fn config_validation_and_update() {
    let good = cfg("nym-binaries-v1.0.0");
    assert!(NymConfigFileUtil::validate_config(&good));
    let mut bad = cfg("nym-binaries-v1.0.0");
    bad.assets[0].index = 1;
    assert!(!NymConfigFileUtil::validate_config(&bad));
    let updated = NymConfigFileUtil::update_release_tag(&good, "nym-binaries-v1.1.0".to_string());
    assert_eq!(updated.release_tag, "nym-binaries-v1.1.0");
    assert_eq!(updated.assets.len(), 2);
    assert_eq!(NymConfigFileUtil::config_file_name(), "auto_update_config.json");
}

#[test]
fn prompt_carries_prior_selection_over() {
    let prompt = NymUpdateAssetSelectPrompt::new(None);
    assert_eq!(prompt.get_list_options(), vec!["nym-mixnode", "nym-gateway"]);
    assert_eq!(prompt.get_selected_options(), Vec::<usize>::new());

    let prior = vec![
        AppSelectOption { name: "nym-mixnode".to_string(), checked: true, index: 0 },
        AppSelectOption { name: "nym-gateway".to_string(), checked: false, index: 1 },
    ];
    let prompt = NymUpdateAssetSelectPrompt::new(Some(prior));
    assert_eq!(prompt.get_selected_options(), vec![0]);

    let answers = vec!["nym-gateway".to_string()];
    let result = prompt.apply_answers(&answers);
    assert_eq!(result.len(), 2);
    assert!(!result[0].checked);
    assert!(result[1].checked);
    assert_eq!(result[1].name, "nym-gateway");
    assert_eq!(result[1].index, 1);
}
