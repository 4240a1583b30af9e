//! The locally persisted release state: the single source of truth for what
//! was last successfully applied.
//!
//! The state lives in a fixed-name JSON document.  Reading and writing the
//! file is the driver's job; the canonical schema, its validation and its
//! updates are verified here.  The driver's write is plain and non-atomic: a
//! crash mid-write corrupts the file.  The known fix is
//! temp-file-then-rename; it is deliberately not assumed here.

use vstd::prelude::*;

verus! {

/// Per-asset update preference.
#[derive(Debug)]
pub struct NymAssetUpdateConfig {
    /// The asset's name.
    pub name: String,
    /// Whether the asset takes part in automatic updates.
    pub auto_update_enabled: bool,
    /// The asset's position in the preference list.
    pub index: usize,
}

impl Clone for NymAssetUpdateConfig {
    fn clone(&self) -> (r: Self)
        ensures
            r == *self,
    {
        NymAssetUpdateConfig {
            name: self.name.clone(),
            auto_update_enabled: self.auto_update_enabled,
            index: self.index,
        }
    }
}

/// The persisted release state: the last successfully applied tag and the
/// ordered per-asset preferences.
#[derive(Debug)]
pub struct NymReleaseConfig {
    /// The tag of the release last successfully applied.
    pub release_tag: String,
    /// Ordered per-asset preferences; each entry's `index` is its position.
    pub assets: Vec<NymAssetUpdateConfig>,
}

impl Clone for NymReleaseConfig {
    fn clone(&self) -> (r: Self)
        ensures
            r.release_tag == self.release_tag,
            r.assets@ == self.assets@,
    {
        let assets = self.assets.clone();
        proof {
            assert(assets@ =~= self.assets@);
        }
        NymReleaseConfig { release_tag: self.release_tag.clone(), assets }
    }
}

impl NymReleaseConfig {
    /// The schema invariant: each preference entry records its own position.
    pub open spec fn wf(&self) -> bool {
        forall|k: int| 0 <= k < self.assets@.len() ==> self.assets@[k].index == k
    }
}

/// Schema-level operations on the persisted release state.
pub struct NymConfigFileUtil {}

impl NymConfigFileUtil {
    /// The fixed name of the persisted state document.
    pub fn config_file_name() -> (r: &'static str)
        ensures
            r@ == "auto_update_config.json"@,
    {
        "auto_update_config.json"
    }

    /// Load-time schema validation: accept exactly the states whose entries
    /// record their own positions.
    pub fn validate_config(cfg: &NymReleaseConfig) -> (r: bool)
        ensures
            r == cfg.wf(),
    {
        let mut k: usize = 0;
        while k < cfg.assets.len()
            invariant
                k <= cfg.assets@.len(),
                forall|j: int| 0 <= j < k ==> cfg.assets@[j].index == j,
            decreases cfg.assets@.len() - k,
        {
            if cfg.assets[k].index != k {
                return false;
            }
            k += 1;
        }
        true
    }

    /// The state to persist after an update applied `tag`: the same
    /// preferences under the new tag.
    pub fn update_release_tag(cfg: &NymReleaseConfig, tag: String) -> (r: NymReleaseConfig)
        ensures
            r.release_tag == tag,
            r.assets@ == cfg.assets@,
    {
        let assets = cfg.assets.clone();
        proof {
            assert(assets@ =~= cfg.assets@);
        }
        NymReleaseConfig { release_tag: tag, assets }
    }
}

} // verus!
