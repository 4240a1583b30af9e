//! The update orchestrator: one attempt's state machine.
//!
//! An attempt walks `Init -> VersionCheck -> (NotNecessary | Downloading ->
//! ServiceTransition -> Reconfiguring -> Starting -> Persisting -> Success)
//! | Failed`.  Every decision is made here and verified; every piece of
//! outside work (HTTP, the supervisor, processes, files) is requested as an
//! [`UpdateAction`] and answered by the driver as an [`UpdateEvent`].  The
//! driver runs the loop: perform the pending action, hand the outcome back
//! to [`NymUpdater::step`], repeat until the state is terminal.
//!
//! There is no compensation after a stop and no rollback after any step: a
//! failure between the stop and the eventual start leaves the asset down.
//! That gap is deliberate, preserved behavior, as is reporting success as
//! soon as the start command itself succeeds, with no readiness probe.

use vstd::prelude::*;
use vstd::string::*;

use crate::assets::NymReleaseAssets;
use crate::config::{NymConfigFileUtil, NymReleaseConfig};
use crate::errors::{UpdateError, UpdateErrorKind};
use crate::lines::lines_of;
use crate::release::{latest_nym_release, selection_err, selection_ok, GithubRelease};
use crate::systemd::{no_nl, set_prop_lines, NymSystemdFileUtil};
use crate::text::{find_first_in, lemma_first_in, replaced_first, str_eq};
use crate::tokens::{field_after, trimmed};
use crate::urls::{latest_alias_url_spec, latest_release_download_url, pinned_tag_url_spec, DownloadUrlMode};
use crate::version_info::{marker_line_token, marker_token_of};

verus! {

/// The supervisor's view of an asset's service.
#[derive(Clone, Copy, Debug, PartialEq, Eq, Structural)]
pub enum AssetState {
    Running,
    Stopped,
    NotAvailable,
}

/// The terminal outcome of one attempt.
#[derive(Debug)]
pub enum NymUpdateResult {
    /// The service runs the new version.  When persisting the new local
    /// state failed afterwards, the failure is surfaced here: the effective
    /// and the recorded version then disagree until a later attempt.
    Success { persist_error: Option<String> },
    /// The feed's latest tag equals the recorded one; nothing was touched.
    NotNecessary,
    /// The attempt aborted; nothing after the failing step was tried.
    Failure(UpdateError),
}

/// Outside work the driver must perform for the attempt to go on.
#[derive(Debug)]
pub enum UpdateAction {
    /// Terminal state: nothing left to do.
    NoAction,
    /// Fetch the release feed and answer with `FeedLoaded`.
    FetchReleaseFeed,
    /// Read and decode the local state document; answer `LocalStateLoaded`.
    LoadLocalState,
    /// Ask the supervisor for the unit's active state; answer
    /// `ServiceStateReported` with the raw value.
    QueryServiceState,
    /// Stop the unit; answer `ServiceStopped`.
    StopService,
    /// Download `url` to `dest` and mark it executable; answer
    /// `BinaryInstalled`.
    Download { url: String, dest: String },
    /// Resolve the staged file to an absolute path; answer
    /// `InstallPathResolved`.
    ResolveInstallPath { path: String },
    /// Read the unit's full text from the supervisor; answer
    /// `UnitTextReported`.
    QueryUnitText,
    /// Resolve the host's public IP; answer `PublicIpReported`.
    ResolvePublicIp,
    /// Run the staged binary's initialization subcommand with the node id
    /// and host IP; answer `NodeInitialized`.
    RunNodeInit { path: String, id: String, ip: String },
    /// Invoke the binary at `path` with its version flag; answer
    /// `BinaryVersionReported` with the raw output.
    QueryBinaryVersion { path: String },
    /// Ask the supervisor for the unit's normalized `ExecStart` value;
    /// answer `ExecStartReported` with the raw value.
    QueryExecStart,
    /// Read the unit's descriptor file; answer `DescriptorRead`.
    ReadDescriptor,
    /// Overwrite the unit's descriptor file with `text`; answer
    /// `DescriptorWritten`.
    WriteDescriptor { text: String },
    /// Reload the supervisor's configuration; answer `DaemonReloaded`.
    ReloadDaemon,
    /// Start the unit; answer `ServiceStarted`.
    StartService,
    /// Overwrite the local state document with `config`; answer
    /// `LocalStateSaved`.
    SaveLocalState { config: NymReleaseConfig },
}

/// The driver's answer to the pending action.  Failures carry either an
/// already-classified [`UpdateError`] (where only the driver can tell the
/// kinds apart) or a plain message (where the step itself fixes the kind).
#[derive(Debug)]
pub enum UpdateEvent {
    /// The decoded release feed, or what went wrong with fetching or
    /// decoding it (`NetworkError`, `ResponseError` or `ParseError`).
    FeedLoaded(Result<Vec<GithubRelease>, UpdateError>),
    /// The decoded local state, or a message saying why the document is
    /// missing or unreadable.
    LocalStateLoaded(Result<NymReleaseConfig, String>),
    /// The raw active-state value, or the query failure.
    ServiceStateReported(Result<String, String>),
    ServiceStopped(Result<(), String>),
    /// Downloaded and made executable, or `DownloadError` /
    /// `PermissionError` as the driver saw it.
    BinaryInstalled(Result<(), UpdateError>),
    InstallPathResolved(Result<String, String>),
    UnitTextReported(Result<String, String>),
    PublicIpReported(Result<String, String>),
    NodeInitialized(Result<(), String>),
    /// The raw version output of the staged binary.
    BinaryVersionReported(Result<String, String>),
    /// The raw normalized `ExecStart` value.
    ExecStartReported(Result<String, String>),
    /// The descriptor file's text.
    DescriptorRead(Result<String, String>),
    DescriptorWritten(Result<(), String>),
    DaemonReloaded(Result<(), String>),
    ServiceStarted(Result<(), String>),
    LocalStateSaved(Result<(), String>),
}

/// Where one attempt stands: what it has resolved so far and which event it
/// awaits.
#[derive(Debug)]
pub enum AttemptState {
    /// `Init`: the release feed is being fetched.
    AwaitingFeed,
    /// `Init`: the latest release is known; the local state is being read.
    AwaitingLocalState { latest: GithubRelease },
    /// `Downloading`: the new binary is being downloaded and staged.
    AwaitingInstall { latest: GithubRelease, local: NymReleaseConfig },
    /// `ServiceTransition`: the unit's active state is being queried.
    AwaitingServiceState { latest: GithubRelease, local: NymReleaseConfig },
    /// `ServiceTransition`: the running unit is being stopped.
    AwaitingStopped { latest: GithubRelease, local: NymReleaseConfig },
    /// `ServiceTransition`: the staged binary's absolute path is being
    /// resolved.
    AwaitingInstallPath { latest: GithubRelease, local: NymReleaseConfig },
    /// `ServiceTransition`: the unit text is being read for the node id.
    AwaitingUnitText { latest: GithubRelease, local: NymReleaseConfig, install_path: String },
    /// `ServiceTransition`: the host's public IP is being resolved.
    AwaitingPublicIp {
        latest: GithubRelease,
        local: NymReleaseConfig,
        install_path: String,
        node_id: String,
    },
    /// `ServiceTransition`: the staged binary's init subcommand is running.
    AwaitingNodeInit { latest: GithubRelease, local: NymReleaseConfig, install_path: String },
    /// `Reconfiguring`: the staged binary reports its version.
    AwaitingVersionOutput { latest: GithubRelease, local: NymReleaseConfig, install_path: String },
    /// `Reconfiguring`: the current `ExecStart` value is being queried.
    AwaitingExecStart {
        latest: GithubRelease,
        local: NymReleaseConfig,
        install_path: String,
        version: String,
    },
    /// `Reconfiguring`: the descriptor file is being read.
    AwaitingDescriptor {
        latest: GithubRelease,
        local: NymReleaseConfig,
        install_path: String,
        version: String,
        exec_show: String,
    },
    /// `Reconfiguring`: the mutated descriptor is being written back.
    AwaitingDescriptorWrite { latest: GithubRelease, local: NymReleaseConfig },
    /// `Reconfiguring`: the supervisor reloads its configuration, exactly
    /// once, after both fields were written and before the start.
    AwaitingDaemonReload { latest: GithubRelease, local: NymReleaseConfig },
    /// `Starting`: the unit is being started.
    AwaitingServiceStart { latest: GithubRelease, local: NymReleaseConfig },
    /// `Persisting`: the new local state is being written.
    AwaitingPersist { latest: GithubRelease },
    /// The attempt is over.
    Done(NymUpdateResult),
}

/// The update orchestrator: the fixed configuration of one attempt series.
pub struct NymUpdater {
    /// The asset this orchestrator updates.
    pub asset: NymReleaseAssets,
    /// Which download location attempts bind to.
    pub url_mode: DownloadUrlMode,
    /// The feed owner.
    pub owner: String,
    /// The feed repository.
    pub repo: String,
    /// The substring a release tag must contain to be considered.
    pub tag_filter: String,
}

/// The staged-file name for a release of an asset: `<tag>-<asset name>`,
/// under the working directory, so repeated installs of one release reuse
/// the same name.
pub open spec fn stage_path_spec(u: NymUpdater, latest: GithubRelease) -> Seq<char> {
    latest.tag_name@ + "-"@ + u.asset.name_spec()
}

/// The download URL an attempt uses, as its mode says.
pub open spec fn download_url_spec(u: NymUpdater, latest: GithubRelease) -> Seq<char> {
    match u.url_mode {
        DownloadUrlMode::LatestAlias => latest_alias_url_spec(u.owner@, u.repo@, u.asset.name_spec()),
        DownloadUrlMode::PinnedTag => pinned_tag_url_spec(
            u.owner@,
            u.repo@,
            latest.tag_name@,
            u.asset.name_spec(),
        ),
    }
}

/// A terminal failure of the given kind, with no further action.
pub open spec fn fails_with(s2: AttemptState, a: UpdateAction, kind: UpdateErrorKind) -> bool {
    &&& s2 matches AttemptState::Done(NymUpdateResult::Failure(e)) && e.kind_spec() == kind
    &&& a == UpdateAction::NoAction
}

/// The lines of the descriptor after both mutations: first the `ExecStart`
/// rewiring (the old path, the `path=` token of `exec_show`, replaced by
/// `install_path` inside the full line, the `argv[]=` token), then the
/// `Description` rewrite.
pub open spec fn mutated_descriptor_lines(
    u: NymUpdater,
    text: Seq<char>,
    exec_show: Seq<char>,
    install_path: Seq<char>,
    version: Seq<char>,
) -> Seq<Seq<char>> {
    set_prop_lines(
        set_prop_lines(
            lines_of(text),
            "ExecStart"@,
            replaced_first(
                trimmed(field_after(exec_show, "argv[]="@).unwrap()),
                trimmed(field_after(exec_show, "path="@).unwrap()),
                install_path,
            ),
        ),
        "Description"@,
        NymSystemdFileUtil::description_spec(u.asset, version),
    )
}

/// Whether the descriptor read can be followed by the write: both tokens of
/// the normalized `ExecStart` output are present, and what would be written
/// fits on single lines.
pub open spec fn descriptor_mutation_fits(
    exec_show: Seq<char>,
    install_path: Seq<char>,
    version: Seq<char>,
) -> bool {
    &&& no_nl(version)
    &&& field_after(exec_show, "path="@) is Some
    &&& field_after(exec_show, "argv[]="@) is Some
    &&& no_nl(
        replaced_first(
            trimmed(field_after(exec_show, "argv[]="@).unwrap()),
            trimmed(field_after(exec_show, "path="@).unwrap()),
            install_path,
        ),
    )
}

/// The transition relation of one attempt: from the state `s` awaiting an
/// answer, consuming the answer `e`, the orchestrator moves to `s2` and
/// asks the driver for `a`.  An answer that does not match the awaited step
/// is itself a failure.
pub open spec fn step_rel(
    u: NymUpdater,
    s: AttemptState,
    e: UpdateEvent,
    s2: AttemptState,
    a: UpdateAction,
) -> bool {
    match (s, e) {
        (AttemptState::AwaitingFeed, UpdateEvent::FeedLoaded(res)) => match res {
            Ok(list) => match s2 {
                AttemptState::AwaitingLocalState { latest } => a == UpdateAction::LoadLocalState
                    && selection_ok(list@, u.tag_filter@, latest),
                AttemptState::Done(NymUpdateResult::Failure(err)) => a == UpdateAction::NoAction
                    && selection_err(list@, u.tag_filter@, err),
                _ => false,
            },
            Err(err) => s2 == AttemptState::Done(NymUpdateResult::Failure(err)) && a
                == UpdateAction::NoAction,
        },
        (AttemptState::AwaitingLocalState { latest }, UpdateEvent::LocalStateLoaded(res)) => match res {
            Err(_) => fails_with(s2, a, UpdateErrorKind::NotFound),
            Ok(cfg) => if !cfg.wf() {
                fails_with(s2, a, UpdateErrorKind::NotFound)
            } else if cfg.release_tag@ == latest.tag_name@ {
                s2 == AttemptState::Done(NymUpdateResult::NotNecessary) && a
                    == UpdateAction::NoAction
            } else if u.asset is Gateway {
                fails_with(s2, a, UpdateErrorKind::NotSupported)
            } else {
                &&& s2 == (AttemptState::AwaitingInstall { latest, local: cfg })
                &&& a matches UpdateAction::Download { url, dest } && url@ == download_url_spec(
                    u,
                    latest,
                ) && dest@ == stage_path_spec(u, latest)
            },
        },
        (AttemptState::AwaitingInstall { latest, local }, UpdateEvent::BinaryInstalled(res)) => match res {
            Err(err) => s2 == AttemptState::Done(NymUpdateResult::Failure(err)) && a
                == UpdateAction::NoAction,
            Ok(_) => s2 == (AttemptState::AwaitingServiceState { latest, local }) && a
                == UpdateAction::QueryServiceState,
        },
        (
            AttemptState::AwaitingServiceState { latest, local },
            UpdateEvent::ServiceStateReported(res),
        ) => match res {
            Err(_) => fails_with(s2, a, UpdateErrorKind::UnitNotFound),
            Ok(raw) => if raw@ == "active"@ {
                s2 == (AttemptState::AwaitingStopped { latest, local }) && a
                    == UpdateAction::StopService
            } else if raw@ == "inactive"@ {
                &&& s2 == (AttemptState::AwaitingInstallPath { latest, local })
                &&& a matches UpdateAction::ResolveInstallPath { path } && path@
                    == stage_path_spec(u, latest)
            } else {
                fails_with(s2, a, UpdateErrorKind::UnitNotFound)
            },
        },
        (AttemptState::AwaitingStopped { latest, local }, UpdateEvent::ServiceStopped(res)) => match res {
            Err(_) => fails_with(s2, a, UpdateErrorKind::UnitNotFound),
            Ok(_) => {
                &&& s2 == (AttemptState::AwaitingInstallPath { latest, local })
                &&& a matches UpdateAction::ResolveInstallPath { path } && path@
                    == stage_path_spec(u, latest)
            },
        },
        (
            AttemptState::AwaitingInstallPath { latest, local },
            UpdateEvent::InstallPathResolved(res),
        ) => match res {
            Err(_) => fails_with(s2, a, UpdateErrorKind::NotFound),
            Ok(path) => s2 == (AttemptState::AwaitingUnitText {
                latest,
                local,
                install_path: path,
            }) && a == UpdateAction::QueryUnitText,
        },
        (
            AttemptState::AwaitingUnitText { latest, local, install_path },
            UpdateEvent::UnitTextReported(res),
        ) => match res {
            Err(_) => fails_with(s2, a, UpdateErrorKind::UnitNotFound),
            Ok(text) => match marker_token_of(text@, "id"@, 3) {
                Option::None => fails_with(s2, a, UpdateErrorKind::Parse),
                Option::Some(id) => {
                    &&& s2 matches AttemptState::AwaitingPublicIp {
                        latest: l2,
                        local: c2,
                        install_path: p2,
                        node_id,
                    } && l2 == latest && c2 == local && p2 == install_path && node_id@ == id
                    &&& a == UpdateAction::ResolvePublicIp
                },
            },
        },
        (
            AttemptState::AwaitingPublicIp { latest, local, install_path, node_id },
            UpdateEvent::PublicIpReported(res),
        ) => match res {
            Err(_) => fails_with(s2, a, UpdateErrorKind::Network),
            Ok(ip) => {
                &&& s2 == (AttemptState::AwaitingNodeInit { latest, local, install_path })
                &&& a matches UpdateAction::RunNodeInit { path, id, ip: ip2 } && path
                    == install_path && id == node_id && ip2 == ip
            },
        },
        (
            AttemptState::AwaitingNodeInit { latest, local, install_path },
            UpdateEvent::NodeInitialized(res),
        ) => match res {
            Err(_) => fails_with(s2, a, UpdateErrorKind::Permission),
            Ok(_) => {
                &&& s2 == (AttemptState::AwaitingVersionOutput { latest, local, install_path })
                &&& a matches UpdateAction::QueryBinaryVersion { path } && path == install_path
            },
        },
        (
            AttemptState::AwaitingVersionOutput { latest, local, install_path },
            UpdateEvent::BinaryVersionReported(res),
        ) => match res {
            Err(_) => fails_with(s2, a, UpdateErrorKind::Parse),
            Ok(out) => match marker_token_of(out@, "Build Version"@, 2) {
                Option::None => fails_with(s2, a, UpdateErrorKind::Parse),
                Option::Some(v) => {
                    &&& s2 matches AttemptState::AwaitingExecStart {
                        latest: l2,
                        local: c2,
                        install_path: p2,
                        version,
                    } && l2 == latest && c2 == local && p2 == install_path && version@ == v
                    &&& a == UpdateAction::QueryExecStart
                },
            },
        },
        (
            AttemptState::AwaitingExecStart { latest, local, install_path, version },
            UpdateEvent::ExecStartReported(res),
        ) => match res {
            Err(_) => fails_with(s2, a, UpdateErrorKind::UnitNotFound),
            Ok(show) => {
                &&& s2 == (AttemptState::AwaitingDescriptor {
                    latest,
                    local,
                    install_path,
                    version,
                    exec_show: show,
                })
                &&& a == UpdateAction::ReadDescriptor
            },
        },
        (
            AttemptState::AwaitingDescriptor { latest, local, install_path, version, exec_show },
            UpdateEvent::DescriptorRead(res),
        ) => match res {
            Err(_) => fails_with(s2, a, UpdateErrorKind::UnitNotFound),
            Ok(text) => if !descriptor_mutation_fits(exec_show@, install_path@, version@) {
                fails_with(s2, a, UpdateErrorKind::Parse)
            } else {
                &&& s2 == (AttemptState::AwaitingDescriptorWrite { latest, local })
                &&& a matches UpdateAction::WriteDescriptor { text: t } && lines_of(t@)
                    == mutated_descriptor_lines(u, text@, exec_show@, install_path@, version@)
            },
        },
        (
            AttemptState::AwaitingDescriptorWrite { latest, local },
            UpdateEvent::DescriptorWritten(res),
        ) => match res {
            Err(_) => fails_with(s2, a, UpdateErrorKind::UnitNotFound),
            Ok(_) => s2 == (AttemptState::AwaitingDaemonReload { latest, local }) && a
                == UpdateAction::ReloadDaemon,
        },
        (AttemptState::AwaitingDaemonReload { latest, local }, UpdateEvent::DaemonReloaded(res)) => match res {
            Err(_) => fails_with(s2, a, UpdateErrorKind::UnitNotFound),
            Ok(_) => s2 == (AttemptState::AwaitingServiceStart { latest, local }) && a
                == UpdateAction::StartService,
        },
        (AttemptState::AwaitingServiceStart { latest, local }, UpdateEvent::ServiceStarted(res)) => match res {
            Err(_) => fails_with(s2, a, UpdateErrorKind::UnitNotFound),
            Ok(_) => {
                &&& s2 matches AttemptState::AwaitingPersist { latest: l2 } && l2 == latest
                &&& a matches UpdateAction::SaveLocalState { config } && config.release_tag@
                    == latest.tag_name@ && config.assets@ == local.assets@
            },
        },
        (AttemptState::AwaitingPersist { latest }, UpdateEvent::LocalStateSaved(res)) => match res {
            Ok(_) => s2 == AttemptState::Done(
                NymUpdateResult::Success { persist_error: Option::None },
            ) && a == UpdateAction::NoAction,
            Err(m) => s2 == AttemptState::Done(
                NymUpdateResult::Success { persist_error: Option::Some(m) },
            ) && a == UpdateAction::NoAction,
        },
        _ => fails_with(s2, a, UpdateErrorKind::Parse),
    }
}

impl NymUpdater {
    /// Begin one attempt for `asset`, downloading as `url_mode` says: the
    /// orchestrator for the fixed upstream project, the initial state, and
    /// the first action the driver must perform.
    pub fn init(asset: NymReleaseAssets, url_mode: DownloadUrlMode) -> (r: (
        NymUpdater,
        AttemptState,
        UpdateAction,
    ))
        ensures
            r.0.asset == asset,
            r.0.url_mode == url_mode,
            r.0.owner@ == "nymtech"@,
            r.0.repo@ == "nym"@,
            r.0.tag_filter@ == "nym-binaries"@,
            r.1 == AttemptState::AwaitingFeed,
            r.2 == UpdateAction::FetchReleaseFeed,
    {
        let u = NymUpdater {
            asset,
            url_mode,
            owner: "nymtech".to_owned(),
            repo: "nym".to_owned(),
            tag_filter: "nym-binaries".to_owned(),
        };
        (u, AttemptState::AwaitingFeed, UpdateAction::FetchReleaseFeed)
    }

    /// Whether an update is needed at all: exact, case-sensitive tag
    /// inequality, never an ordering -- a downgrade looks the same as an
    /// upgrade.
    pub fn update_if_needed(&self, latest: &GithubRelease, local: &NymReleaseConfig) -> (r: bool)
        ensures
            r == (latest.tag_name@ != local.release_tag@),
    {
        !str_eq(latest.tag_name.as_str(), local.release_tag.as_str())
    }

    /// Map the supervisor's textual active state: `active` runs, `inactive`
    /// is stopped, anything else (the empty answer included) means the unit
    /// does not exist.
    pub fn current_asset_state(&self, raw: &str) -> (r: Result<AssetState, UpdateError>)
        ensures
            raw@ == "active"@ ==> r == Result::<AssetState, UpdateError>::Ok(AssetState::Running),
            raw@ == "inactive"@ ==> r == Result::<AssetState, UpdateError>::Ok(
                AssetState::Stopped,
            ),
            raw@ != "active"@ && raw@ != "inactive"@ ==> (r matches Err(e) && e.kind_spec()
                == UpdateErrorKind::UnitNotFound),
    {
        proof {
            reveal_strlit("active");
            reveal_strlit("inactive");
            assert("active"@.len() == 6);
            assert("inactive"@.len() == 8);
        }
        if str_eq(raw, "active") {
            Ok(AssetState::Running)
        } else if str_eq(raw, "inactive") {
            Ok(AssetState::Stopped)
        } else {
            Err(UpdateError::UnitNotFoundError("Mixnode does not exist on systemd".to_owned()))
        }
    }

    /// The staged-file name for the given release: `<tag>-<asset name>`.
    pub fn latest_asset_path(&self, latest: &GithubRelease) -> (r: String)
        ensures
            r@ == stage_path_spec(*self, *latest),
    {
        let mut out = latest.tag_name.clone();
        out.append("-");
        out.append(self.asset.name());
        out
    }

    /// The binary path currently wired into the unit, from the supervisor's
    /// normalized `ExecStart` output.  Defined only for the mix node;
    /// Gateway fails with `NotSupportedError` without reading anything.
    pub fn systemd_asset_path(&self, show_output: &str) -> (r: Result<String, UpdateError>)
        ensures
            match r {
                Ok(p) => self.asset is MixNode && (field_after(show_output@, "path="@) matches
                    Some(v) && p@ == trimmed(v)),
                Err(e) => {
                    ||| self.asset is Gateway && e.kind_spec() == UpdateErrorKind::NotSupported
                    ||| self.asset is MixNode && field_after(show_output@, "path="@) is None
                        && e.kind_spec() == UpdateErrorKind::Parse
                },
            },
    {
        match self.asset {
            NymReleaseAssets::Gateway => Err(
                UpdateError::NotSupportedError("Gateway not supported yet".to_owned()),
            ),
            NymReleaseAssets::MixNode => {
                let util = NymSystemdFileUtil::new(NymReleaseAssets::MixNode);
                util.current_exec_start_path(show_output)
            },
        }
    }

    /// The version the binary reports: the third whitespace-delimited token
    /// of the line of `output` containing the literal marker
    /// `Build Version`.  The format is a load-bearing external contract of
    /// the managed binary.
    pub fn asset_build_version(&self, output: &str) -> (r: Result<String, UpdateError>)
        ensures
            match r {
                Ok(v) => marker_token_of(output@, "Build Version"@, 2) == Option::Some(v@),
                Err(e) => marker_token_of(output@, "Build Version"@, 2) is None && e.kind_spec()
                    == UpdateErrorKind::Parse,
            },
    {
        match marker_line_token(output, "Build Version", 2) {
            Some(v) => Ok(v),
            None => Err(
                UpdateError::ParseError("no Build Version line in the version output".to_owned()),
            ),
        }
    }

    /// The node id embedded in the unit text: the fourth
    /// whitespace-delimited token of the first line containing `id`.
    pub fn node_id(&self, unit_text: &str) -> (r: Result<String, UpdateError>)
        ensures
            match r {
                Ok(id) => marker_token_of(unit_text@, "id"@, 3) == Option::Some(id@),
                Err(e) => marker_token_of(unit_text@, "id"@, 3) is None && e.kind_spec()
                    == UpdateErrorKind::Parse,
            },
    {
        match marker_line_token(unit_text, "id", 3) {
            Some(id) => Ok(id),
            None => Err(UpdateError::ParseError("no id argument in the unit text".to_owned())),
        }
    }

    /// One transition of the attempt: consume the driver's answer to the
    /// pending action, decide, and hand the driver the next action.
    pub fn step(&self, state: AttemptState, event: UpdateEvent) -> (r: (
        AttemptState,
        UpdateAction,
    ))
        ensures
            step_rel(*self, state, event, r.0, r.1),
    {
        match (state, event) {
            (AttemptState::AwaitingFeed, UpdateEvent::FeedLoaded(res)) => match res {
                Ok(list) => match latest_nym_release(&list, self.tag_filter.as_str()) {
                    Ok(latest) => (
                        AttemptState::AwaitingLocalState { latest },
                        UpdateAction::LoadLocalState,
                    ),
                    Err(e) => (
                        AttemptState::Done(NymUpdateResult::Failure(e)),
                        UpdateAction::NoAction,
                    ),
                },
                Err(e) => (AttemptState::Done(NymUpdateResult::Failure(e)), UpdateAction::NoAction),
            },
            (AttemptState::AwaitingLocalState { latest }, UpdateEvent::LocalStateLoaded(res)) => match res {
                Err(m) => (
                    AttemptState::Done(NymUpdateResult::Failure(UpdateError::NotFoundError(m))),
                    UpdateAction::NoAction,
                ),
                Ok(cfg) => {
                    if !NymConfigFileUtil::validate_config(&cfg) {
                        (
                            AttemptState::Done(
                                NymUpdateResult::Failure(
                                    UpdateError::NotFoundError(
                                        "the local state document does not fit the schema".to_owned(),
                                    ),
                                ),
                            ),
                            UpdateAction::NoAction,
                        )
                    } else if str_eq(cfg.release_tag.as_str(), latest.tag_name.as_str()) {
                        (AttemptState::Done(NymUpdateResult::NotNecessary), UpdateAction::NoAction)
                    } else {
                        match self.asset {
                            NymReleaseAssets::Gateway => (
                                AttemptState::Done(
                                    NymUpdateResult::Failure(
                                        UpdateError::NotSupportedError(
                                            "Gateway is not supported yet".to_owned(),
                                        ),
                                    ),
                                ),
                                UpdateAction::NoAction,
                            ),
                            NymReleaseAssets::MixNode => {
                                let dest = self.latest_asset_path(&latest);
                                let url = match latest_release_download_url(
                                    self.owner.as_str(),
                                    self.repo.as_str(),
                                    &self.asset,
                                    self.url_mode,
                                    latest.tag_name.as_str(),
                                ) {
                                    Ok(url) => url,
                                    Err(_) => String::new(),
                                };
                                (
                                    AttemptState::AwaitingInstall { latest, local: cfg },
                                    UpdateAction::Download { url, dest },
                                )
                            },
                        }
                    }
                },
            },
            (AttemptState::AwaitingInstall { latest, local }, UpdateEvent::BinaryInstalled(res)) => match res {
                Err(e) => (
                    AttemptState::Done(NymUpdateResult::Failure(e)),
                    UpdateAction::NoAction,
                ),
                Ok(_) => (
                    AttemptState::AwaitingServiceState { latest, local },
                    UpdateAction::QueryServiceState,
                ),
            },
            (
                AttemptState::AwaitingServiceState { latest, local },
                UpdateEvent::ServiceStateReported(res),
            ) => match res {
                Err(m) => (
                    AttemptState::Done(
                        NymUpdateResult::Failure(UpdateError::UnitNotFoundError(m)),
                    ),
                    UpdateAction::NoAction,
                ),
                Ok(raw) => match self.current_asset_state(raw.as_str()) {
                    Err(e) => (
                        AttemptState::Done(NymUpdateResult::Failure(e)),
                        UpdateAction::NoAction,
                    ),
                    Ok(AssetState::Running) => (
                        AttemptState::AwaitingStopped { latest, local },
                        UpdateAction::StopService,
                    ),
                    Ok(AssetState::Stopped) => {
                        let path = self.latest_asset_path(&latest);
                        (
                            AttemptState::AwaitingInstallPath { latest, local },
                            UpdateAction::ResolveInstallPath { path },
                        )
                    },
                    Ok(AssetState::NotAvailable) => (
                        AttemptState::Done(
                            NymUpdateResult::Failure(
                                UpdateError::UnitNotFoundError(
                                    "Mixnode does not exist on systemd".to_owned(),
                                ),
                            ),
                        ),
                        UpdateAction::NoAction,
                    ),
                },
            },
            (AttemptState::AwaitingStopped { latest, local }, UpdateEvent::ServiceStopped(res)) => match res {
                Err(m) => (
                    AttemptState::Done(
                        NymUpdateResult::Failure(UpdateError::UnitNotFoundError(m)),
                    ),
                    UpdateAction::NoAction,
                ),
                Ok(_) => {
                    let path = self.latest_asset_path(&latest);
                    (
                        AttemptState::AwaitingInstallPath { latest, local },
                        UpdateAction::ResolveInstallPath { path },
                    )
                },
            },
            (
                AttemptState::AwaitingInstallPath { latest, local },
                UpdateEvent::InstallPathResolved(res),
            ) => match res {
                Err(m) => (
                    AttemptState::Done(NymUpdateResult::Failure(UpdateError::NotFoundError(m))),
                    UpdateAction::NoAction,
                ),
                Ok(path) => (
                    AttemptState::AwaitingUnitText { latest, local, install_path: path },
                    UpdateAction::QueryUnitText,
                ),
            },
            (
                AttemptState::AwaitingUnitText { latest, local, install_path },
                UpdateEvent::UnitTextReported(res),
            ) => match res {
                Err(m) => (
                    AttemptState::Done(
                        NymUpdateResult::Failure(UpdateError::UnitNotFoundError(m)),
                    ),
                    UpdateAction::NoAction,
                ),
                Ok(text) => match self.node_id(text.as_str()) {
                    Err(e) => (
                        AttemptState::Done(NymUpdateResult::Failure(e)),
                        UpdateAction::NoAction,
                    ),
                    Ok(id) => (
                        AttemptState::AwaitingPublicIp {
                            latest,
                            local,
                            install_path,
                            node_id: id,
                        },
                        UpdateAction::ResolvePublicIp,
                    ),
                },
            },
            (
                AttemptState::AwaitingPublicIp { latest, local, install_path, node_id },
                UpdateEvent::PublicIpReported(res),
            ) => match res {
                Err(m) => (
                    AttemptState::Done(NymUpdateResult::Failure(UpdateError::NetworkError(m))),
                    UpdateAction::NoAction,
                ),
                Ok(ip) => {
                    let path = install_path.clone();
                    (
                        AttemptState::AwaitingNodeInit { latest, local, install_path },
                        UpdateAction::RunNodeInit { path, id: node_id, ip },
                    )
                },
            },
            (
                AttemptState::AwaitingNodeInit { latest, local, install_path },
                UpdateEvent::NodeInitialized(res),
            ) => match res {
                Err(m) => (
                    AttemptState::Done(NymUpdateResult::Failure(UpdateError::PermissionError(m))),
                    UpdateAction::NoAction,
                ),
                Ok(_) => {
                    let path = install_path.clone();
                    (
                        AttemptState::AwaitingVersionOutput { latest, local, install_path },
                        UpdateAction::QueryBinaryVersion { path },
                    )
                },
            },
            (
                AttemptState::AwaitingVersionOutput { latest, local, install_path },
                UpdateEvent::BinaryVersionReported(res),
            ) => match res {
                Err(m) => (
                    AttemptState::Done(NymUpdateResult::Failure(UpdateError::ParseError(m))),
                    UpdateAction::NoAction,
                ),
                Ok(out) => match self.asset_build_version(out.as_str()) {
                    Err(e) => (
                        AttemptState::Done(NymUpdateResult::Failure(e)),
                        UpdateAction::NoAction,
                    ),
                    Ok(version) => (
                        AttemptState::AwaitingExecStart { latest, local, install_path, version },
                        UpdateAction::QueryExecStart,
                    ),
                },
            },
            (
                AttemptState::AwaitingExecStart { latest, local, install_path, version },
                UpdateEvent::ExecStartReported(res),
            ) => match res {
                Err(m) => (
                    AttemptState::Done(
                        NymUpdateResult::Failure(UpdateError::UnitNotFoundError(m)),
                    ),
                    UpdateAction::NoAction,
                ),
                Ok(show) => (
                    AttemptState::AwaitingDescriptor {
                        latest,
                        local,
                        install_path,
                        version,
                        exec_show: show,
                    },
                    UpdateAction::ReadDescriptor,
                ),
            },
            (
                AttemptState::AwaitingDescriptor {
                    latest,
                    local,
                    install_path,
                    version,
                    exec_show,
                },
                UpdateEvent::DescriptorRead(res),
            ) => match res {
                Err(m) => (
                    AttemptState::Done(
                        NymUpdateResult::Failure(UpdateError::UnitNotFoundError(m)),
                    ),
                    UpdateAction::NoAction,
                ),
                Ok(text) => {
                    let vn = version.as_str().unicode_len();
                    let v_nl = find_first_in(version.as_str(), '\n', '\n');
                    proof {
                        lemma_first_in(version@, '\n', '\n');
                    }
                    if v_nl != vn {
                        return (
                            AttemptState::Done(
                                NymUpdateResult::Failure(
                                    UpdateError::ParseError(
                                        "the reported version carries a newline".to_owned(),
                                    ),
                                ),
                            ),
                            UpdateAction::NoAction,
                        );
                    }
                    let util = NymSystemdFileUtil::new(self.asset);
                    match util.update_exec_start_prop(
                        text.as_str(),
                        exec_show.as_str(),
                        install_path.as_str(),
                    ) {
                        Err(e) => (
                            AttemptState::Done(NymUpdateResult::Failure(e)),
                            UpdateAction::NoAction,
                        ),
                        Ok(text1) => {
                            let text2 = util.update_description_prop(
                                text1.as_str(),
                                version.as_str(),
                            );
                            (
                                AttemptState::AwaitingDescriptorWrite { latest, local },
                                UpdateAction::WriteDescriptor { text: text2 },
                            )
                        },
                    }
                },
            },
            (
                AttemptState::AwaitingDescriptorWrite { latest, local },
                UpdateEvent::DescriptorWritten(res),
            ) => match res {
                Err(m) => (
                    AttemptState::Done(
                        NymUpdateResult::Failure(UpdateError::UnitNotFoundError(m)),
                    ),
                    UpdateAction::NoAction,
                ),
                Ok(_) => (
                    AttemptState::AwaitingDaemonReload { latest, local },
                    UpdateAction::ReloadDaemon,
                ),
            },
            (
                AttemptState::AwaitingDaemonReload { latest, local },
                UpdateEvent::DaemonReloaded(res),
            ) => match res {
                Err(m) => (
                    AttemptState::Done(
                        NymUpdateResult::Failure(UpdateError::UnitNotFoundError(m)),
                    ),
                    UpdateAction::NoAction,
                ),
                Ok(_) => (
                    AttemptState::AwaitingServiceStart { latest, local },
                    UpdateAction::StartService,
                ),
            },
            (
                AttemptState::AwaitingServiceStart { latest, local },
                UpdateEvent::ServiceStarted(res),
            ) => match res {
                Err(m) => (
                    AttemptState::Done(
                        NymUpdateResult::Failure(UpdateError::UnitNotFoundError(m)),
                    ),
                    UpdateAction::NoAction,
                ),
                Ok(_) => {
                    let config = NymConfigFileUtil::update_release_tag(
                        &local,
                        latest.tag_name.clone(),
                    );
                    (
                        AttemptState::AwaitingPersist { latest },
                        UpdateAction::SaveLocalState { config },
                    )
                },
            },
            (AttemptState::AwaitingPersist { latest: _ }, UpdateEvent::LocalStateSaved(res)) => match res {
                Ok(_) => (
                    AttemptState::Done(NymUpdateResult::Success { persist_error: None }),
                    UpdateAction::NoAction,
                ),
                Err(m) => (
                    AttemptState::Done(NymUpdateResult::Success { persist_error: Some(m) }),
                    UpdateAction::NoAction,
                ),
            },
            (_, _) => (
                AttemptState::Done(
                    NymUpdateResult::Failure(
                        UpdateError::ParseError(
                            "the event does not answer the awaited action".to_owned(),
                        ),
                    ),
                ),
                UpdateAction::NoAction,
            ),
        }
    }
}

/// The state an attempt is in just before its `t`-th step: the start state
/// for `t == 0`, else what the previous step produced.
pub open spec fn trace_state(
    s0: AttemptState,
    steps: Seq<(UpdateEvent, AttemptState, UpdateAction)>,
    t: int,
) -> AttemptState {
    if t == 0 {
        s0
    } else {
        steps[t - 1].1
    }
}

/// A sequence of steps the orchestrator can actually take from `s0`: each
/// recorded (event, next state, action) triple is a transition from the
/// state the previous step left behind.
pub open spec fn is_trace(
    u: NymUpdater,
    s0: AttemptState,
    steps: Seq<(UpdateEvent, AttemptState, UpdateAction)>,
) -> bool {
    forall|t: int| #![trigger steps[t]]
        0 <= t < steps.len() ==> step_rel(u, trace_state(s0, steps, t), steps[t].0, steps[t].1, steps[t].2)
}

/// The service-transition phase (the stop-or-skip decision and the node
/// re-bootstrap) is behind an attempt in this state.
pub open spec fn transition_completed(s: AttemptState) -> bool {
    match s {
        AttemptState::AwaitingVersionOutput { .. } => true,
        AttemptState::AwaitingExecStart { .. } => true,
        AttemptState::AwaitingDescriptor { .. } => true,
        AttemptState::AwaitingDescriptorWrite { .. } => true,
        AttemptState::AwaitingDaemonReload { .. } => true,
        AttemptState::AwaitingServiceStart { .. } => true,
        AttemptState::AwaitingPersist { .. } => true,
        _ => false,
    }
}

/// The reconfiguration phase (both descriptor fields written and the
/// supervisor reloaded) is behind an attempt in this state.
pub open spec fn reconfiguration_completed(s: AttemptState) -> bool {
    match s {
        AttemptState::AwaitingServiceStart { .. } => true,
        AttemptState::AwaitingPersist { .. } => true,
        _ => false,
    }
}

/// A step only ever enters the states past the service transition by
/// consuming the successful node re-bootstrap answer, or from a state
/// already past it.
#[verifier::rlimit(60)]
proof fn lemma_transition_source(
    u: NymUpdater,
    s: AttemptState,
    e: UpdateEvent,
    s2: AttemptState,
    a: UpdateAction,
)
    requires
        step_rel(u, s, e, s2, a),
        transition_completed(s2),
    ensures
        transition_completed(s) || (e matches UpdateEvent::NodeInitialized(r0) && r0 is Ok),
{
}

/// A step only ever enters the states past the reconfiguration by consuming
/// the successful reload answer, or from a state already past it.
#[verifier::rlimit(60)]
proof fn lemma_reconfiguration_source(
    u: NymUpdater,
    s: AttemptState,
    e: UpdateEvent,
    s2: AttemptState,
    a: UpdateAction,
)
    requires
        step_rel(u, s, e, s2, a),
        reconfiguration_completed(s2),
    ensures
        reconfiguration_completed(s) || (e matches UpdateEvent::DaemonReloaded(r0) && r0 is Ok),
{
}

/// The save action is only ever emitted from the state awaiting the service
/// start, on its successful answer.
#[verifier::rlimit(60)]
proof fn lemma_save_source(
    u: NymUpdater,
    s: AttemptState,
    e: UpdateEvent,
    s2: AttemptState,
    a: UpdateAction,
)
    requires
        step_rel(u, s, e, s2, a),
        a matches UpdateAction::SaveLocalState { .. },
    ensures
        s matches AttemptState::AwaitingServiceStart { .. },
        e matches UpdateEvent::ServiceStarted(r0) && r0 is Ok,
{
}

/// In a trace of an attempt, a state past the service transition can only
/// be reached after the successful node re-bootstrap answer was consumed.
proof fn lemma_transition_needs_init_event(
    u: NymUpdater,
    steps: Seq<(UpdateEvent, AttemptState, UpdateAction)>,
    t: int,
)
    requires
        is_trace(u, AttemptState::AwaitingFeed, steps),
        0 <= t < steps.len(),
        transition_completed(steps[t].1),
    ensures
        exists|j: int|
            0 <= j <= t && (#[trigger] steps[j].0 matches UpdateEvent::NodeInitialized(r0)
                && r0 is Ok),
    decreases t,
{
    let s = trace_state(AttemptState::AwaitingFeed, steps, t);
    lemma_transition_source(u, s, steps[t].0, steps[t].1, steps[t].2);
    if steps[t].0 matches UpdateEvent::NodeInitialized(r0) && r0 is Ok {
        assert(0 <= t <= t && (steps[t].0 matches UpdateEvent::NodeInitialized(r0) && r0 is Ok));
    } else {
        assert(transition_completed(s));
        assert(t > 0);
        lemma_transition_needs_init_event(u, steps, t - 1);
    }
}

/// In a trace of an attempt, a state past the reconfiguration can only be
/// reached after the successful reload answer was consumed.
proof fn lemma_reconfiguration_needs_reload_event(
    u: NymUpdater,
    steps: Seq<(UpdateEvent, AttemptState, UpdateAction)>,
    t: int,
)
    requires
        is_trace(u, AttemptState::AwaitingFeed, steps),
        0 <= t < steps.len(),
        reconfiguration_completed(steps[t].1),
    ensures
        exists|j: int|
            0 <= j <= t && (#[trigger] steps[j].0 matches UpdateEvent::DaemonReloaded(r0)
                && r0 is Ok),
    decreases t,
{
    let s = trace_state(AttemptState::AwaitingFeed, steps, t);
    lemma_reconfiguration_source(u, s, steps[t].0, steps[t].1, steps[t].2);
    if steps[t].0 matches UpdateEvent::DaemonReloaded(r0) && r0 is Ok {
        assert(0 <= t <= t && (steps[t].0 matches UpdateEvent::DaemonReloaded(r0) && r0 is Ok));
    } else {
        assert(reconfiguration_completed(s));
        assert(t > 0);
        lemma_reconfiguration_needs_reload_event(u, steps, t - 1);
    }
}

/// An attempt persists a new local state only after the service transition
/// and the reconfiguration have both completed, and what it saves carries
/// the attempt's resolved tag: in any trace from the start of an attempt,
/// the save action appears strictly after the successful node re-bootstrap
/// answer and the successful reload answer, and the saved state's tag is
/// the tag of the release the attempt resolved.
pub proof fn lemma_persist_after_both_phases(
    u: NymUpdater,
    steps: Seq<(UpdateEvent, AttemptState, UpdateAction)>,
    i: int,
)
    requires
        is_trace(u, AttemptState::AwaitingFeed, steps),
        0 <= i < steps.len(),
        steps[i].2 matches UpdateAction::SaveLocalState { .. },
    ensures
        exists|j: int|
            0 <= j < i && (#[trigger] steps[j].0 matches UpdateEvent::NodeInitialized(r0)
                && r0 is Ok),
        exists|j: int|
            0 <= j < i && (#[trigger] steps[j].0 matches UpdateEvent::DaemonReloaded(r0)
                && r0 is Ok),
        i > 0,
        steps[i - 1].1 matches AttemptState::AwaitingServiceStart { latest, local }
            && steps[i].2 matches UpdateAction::SaveLocalState { config }
            && config.release_tag@ == latest.tag_name@ && config.assets@ == local.assets@,
{
    let s = trace_state(AttemptState::AwaitingFeed, steps, i);
    lemma_save_source(u, s, steps[i].0, steps[i].1, steps[i].2);
    assert(i > 0);
    assert(steps[i - 1].1 == s);
    assert(transition_completed(s));
    assert(reconfiguration_completed(s));
    lemma_transition_needs_init_event(u, steps, i - 1);
    lemma_reconfiguration_needs_reload_event(u, steps, i - 1);
}

/// Idempotence: when the feed's latest tag equals the locally recorded one,
/// the attempt ends at once in `NotNecessary`, requesting no further
/// outside work.
pub proof fn lemma_unchanged_state_not_necessary(
    u: NymUpdater,
    latest: GithubRelease,
    cfg: NymReleaseConfig,
    s2: AttemptState,
    a: UpdateAction,
)
    requires
        step_rel(
            u,
            AttemptState::AwaitingLocalState { latest },
            UpdateEvent::LocalStateLoaded(Result::<NymReleaseConfig, String>::Ok(cfg)),
            s2,
            a,
        ),
        cfg.wf(),
        cfg.release_tag@ == latest.tag_name@,
    ensures
        s2 == AttemptState::Done(NymUpdateResult::NotNecessary),
        a == UpdateAction::NoAction,
{
}

/// Idempotence across attempts: the state a successful attempt saves is
/// read back by a later attempt, and against an unchanged feed that attempt
/// ends in `NotNecessary`.
pub proof fn lemma_repeated_attempt_not_necessary(
    u: NymUpdater,
    u2: NymUpdater,
    latest: GithubRelease,
    latest2: GithubRelease,
    local: NymReleaseConfig,
    config: NymReleaseConfig,
    s2: AttemptState,
    a: UpdateAction,
    s3: AttemptState,
    a3: UpdateAction,
)
    requires
        step_rel(
            u,
            AttemptState::AwaitingServiceStart { latest, local },
            UpdateEvent::ServiceStarted(Result::<(), String>::Ok(())),
            s2,
            a,
        ),
        a == (UpdateAction::SaveLocalState { config }),
        local.wf(),
        latest2.tag_name@ == latest.tag_name@,
        step_rel(
            u2,
            AttemptState::AwaitingLocalState { latest: latest2 },
            UpdateEvent::LocalStateLoaded(Result::<NymReleaseConfig, String>::Ok(config)),
            s3,
            a3,
        ),
    ensures
        s3 == AttemptState::Done(NymUpdateResult::NotNecessary),
        a3 == UpdateAction::NoAction,
{
    assert(config.assets@ == local.assets@);
    assert(config.wf());
}

/// Gateway fails fast: when an update would be needed for the Gateway
/// asset, the attempt fails with `NotSupportedError` before any network or
/// process action is requested.
pub proof fn lemma_gateway_fails_fast(
    u: NymUpdater,
    latest: GithubRelease,
    cfg: NymReleaseConfig,
    s2: AttemptState,
    a: UpdateAction,
)
    requires
        u.asset is Gateway,
        step_rel(
            u,
            AttemptState::AwaitingLocalState { latest },
            UpdateEvent::LocalStateLoaded(Result::<NymReleaseConfig, String>::Ok(cfg)),
            s2,
            a,
        ),
        cfg.wf(),
        cfg.release_tag@ != latest.tag_name@,
    ensures
        s2 matches AttemptState::Done(NymUpdateResult::Failure(e)) && e.kind_spec()
            == UpdateErrorKind::NotSupported,
        a == UpdateAction::NoAction,
{
}

/// A missing or unreadable local state aborts the attempt as a
/// `NotFoundError` failure: without a last-known state, "update needed"
/// cannot be defined, so nothing is defaulted.
pub proof fn lemma_missing_local_state_fails(
    u: NymUpdater,
    latest: GithubRelease,
    m: String,
    s2: AttemptState,
    a: UpdateAction,
)
    requires
        step_rel(
            u,
            AttemptState::AwaitingLocalState { latest },
            UpdateEvent::LocalStateLoaded(Result::<NymReleaseConfig, String>::Err(m)),
            s2,
            a,
        ),
    ensures
        s2 matches AttemptState::Done(NymUpdateResult::Failure(e)) && e.kind_spec()
            == UpdateErrorKind::NotFound,
        a == UpdateAction::NoAction,
{
}

} // verus!
