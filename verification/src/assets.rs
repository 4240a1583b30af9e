//! The assets the updater can manage.

use vstd::prelude::*;

verus! {

/// A deployable binary managed by the updater.  Gateway is explicitly
/// unsupported for every operation that resolves paths or descriptors: such
/// operations fail fast with a dedicated error instead of doing partial work.
#[derive(Clone, Copy, Debug, PartialEq, Eq, Structural)]
pub enum NymReleaseAssets {
    MixNode,
    Gateway,
}

impl NymReleaseAssets {
    /// The unit and download name of this asset, as a spec-level value.
    pub open spec fn name_spec(&self) -> Seq<char> {
        match self {
            NymReleaseAssets::MixNode => "nym-mixnode"@,
            NymReleaseAssets::Gateway => "nym-gateway"@,
        }
    }

    /// The unit and download name of this asset.
    pub fn name(&self) -> (r: &'static str)
        ensures
            r@ == self.name_spec(),
    {
        match self {
            NymReleaseAssets::MixNode => "nym-mixnode",
            NymReleaseAssets::Gateway => "nym-gateway",
        }
    }

    /// Every asset, in a fixed order.
    pub fn get_all() -> (r: Vec<NymReleaseAssets>)
        ensures
            r@ == seq![NymReleaseAssets::MixNode, NymReleaseAssets::Gateway],
    {
        let mut v: Vec<NymReleaseAssets> = Vec::new();
        v.push(NymReleaseAssets::MixNode);
        v.push(NymReleaseAssets::Gateway);
        proof {
            assert(v@ =~= seq![NymReleaseAssets::MixNode, NymReleaseAssets::Gateway]);
        }
        v
    }

    /// The names of every asset, in the order of [`Self::get_all`].
    pub fn get_all_as_string() -> (r: Vec<String>)
        ensures
            r@.len() == 2,
            r@[0]@ == NymReleaseAssets::MixNode.name_spec(),
            r@[1]@ == NymReleaseAssets::Gateway.name_spec(),
    {
        let mut v: Vec<String> = Vec::new();
        v.push(NymReleaseAssets::MixNode.name().to_owned());
        v.push(NymReleaseAssets::Gateway.name().to_owned());
        v
    }
}

} // verus!
