//! Keeps a deployed network-service binary in sync with the latest published
//! release of an upstream project.
//!
//! The verified core is the update orchestrator (a version-resolution and
//! service-reconfiguration state machine) and the service-descriptor mutator
//! it depends on, together with the text parsing both lean on.  All outside
//! work (HTTP, process control, file access) is requested through
//! [`UpdateAction`] values and answered with [`UpdateEvent`] values by an
//! unverified driver.

mod assets;
mod client;
mod config;
mod errors;
pub mod lines;
mod prompt;
mod release;
mod systemd;
pub mod text;
pub mod tokens;
mod updater;
mod urls;
pub mod version_info;

pub use assets::NymReleaseAssets;
pub use client::{GithubClConstructorParams, RestResponse};
pub use config::{NymAssetUpdateConfig, NymConfigFileUtil, NymReleaseConfig};
pub use errors::{UpdateError, UpdateErrorKind};
pub use prompt::{AppSelectOption, NymUpdateAssetSelectPrompt};
pub use release::{
    latest_nym_release, latest_of_dated, selection_err, selection_ok, DatedRelease, GithubRelease,
};
pub use systemd::{NymSystemDProperty, NymSystemdFileUtil};
pub use updater::{
    descriptor_mutation_fits, is_trace, lemma_gateway_fails_fast, lemma_missing_local_state_fails,
    lemma_persist_after_both_phases, lemma_repeated_attempt_not_necessary,
    lemma_unchanged_state_not_necessary, mutated_descriptor_lines, reconfiguration_completed,
    step_rel, trace_state, transition_completed, AssetState, AttemptState, NymUpdateResult,
    NymUpdater, UpdateAction, UpdateEvent,
};
pub use urls::{latest_release_download_url, DownloadUrlMode, GithubApiUrl};
