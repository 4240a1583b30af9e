//! The asset-selection list: which assets the operator picked for updating.
//!
//! The interactive prompt itself is plain UI and lives with the driver;
//! what is verified here is the list it works on: how prior selections
//! carry over into the option list, which entries count as selected, and
//! how the operator's answers become the new selection.

use vstd::prelude::*;
use vstd::string::*;

use crate::assets::NymReleaseAssets;
use crate::text::str_eq;

verus! {

/// One selectable entry of the prompt.
#[derive(Debug)]
pub struct AppSelectOption {
    pub name: String,
    pub checked: bool,
    pub index: usize,
}

impl Clone for AppSelectOption {
    fn clone(&self) -> (r: Self)
        ensures
            r == *self,
    {
        AppSelectOption { name: self.name.clone(), checked: self.checked, index: self.index }
    }
}

/// Whether `opts` holds a checked entry named `name`.
pub open spec fn name_checked_in(opts: Seq<AppSelectOption>, name: Seq<char>) -> bool {
    exists|m: int| 0 <= m < opts.len() && opts[m].checked && opts[m].name@ == name
}

/// Whether one of `names` is `name`.
pub open spec fn name_in(names: Seq<String>, name: Seq<char>) -> bool {
    exists|m: int| 0 <= m < names.len() && names[m]@ == name
}

/// The view of a prior selection handed to the prompt: the list, or empty
/// when there was none.
pub open spec fn prior_view(selected: Option<Vec<AppSelectOption>>) -> Seq<AppSelectOption> {
    match selected {
        Option::Some(v) => v@,
        Option::None => Seq::empty(),
    }
}

/// The indices of the checked entries of `opts`, in order.
pub open spec fn checked_indices(opts: Seq<AppSelectOption>) -> Seq<usize>
    decreases opts.len(),
{
    if opts.len() == 0 {
        Seq::empty()
    } else {
        let rest = checked_indices(opts.drop_first());
        if opts[0].checked {
            seq![opts[0].index] + rest
        } else {
            rest
        }
    }
}

/// Whether `opts` holds a checked entry named `name`.
fn has_checked_name(opts: &Vec<AppSelectOption>, name: &str) -> (r: bool)
    ensures
        r == name_checked_in(opts@, name@),
{
    let mut m: usize = 0;
    while m < opts.len()
        invariant
            m <= opts@.len(),
            forall|j: int| 0 <= j < m ==> !(#[trigger] opts@[j].checked && opts@[j].name@ == name@),
        decreases opts@.len() - m,
    {
        if opts[m].checked && str_eq(opts[m].name.as_str(), name) {
            return true;
        }
        m += 1;
    }
    false
}

/// Whether one of `names` is `name`.
fn contains_name(names: &Vec<String>, name: &str) -> (r: bool)
    ensures
        r == name_in(names@, name@),
{
    let mut m: usize = 0;
    while m < names.len()
        invariant
            m <= names@.len(),
            forall|j: int| 0 <= j < m ==> #[trigger] names@[j]@ != name@,
        decreases names@.len() - m,
    {
        if str_eq(names[m].as_str(), name) {
            return true;
        }
        m += 1;
    }
    false
}

/// The state of the asset-selection prompt: one entry per asset, each
/// carrying over whether it was checked before.
#[derive(Debug)]
pub struct NymUpdateAssetSelectPrompt {
    options: Vec<AppSelectOption>,
}

impl NymUpdateAssetSelectPrompt {
    /// The entries the prompt works on.
    pub closed spec fn options_spec(&self) -> Seq<AppSelectOption> {
        self.options@
    }

    /// Build the option list: one entry per asset, in the fixed asset
    /// order, each checked exactly when the prior selection holds a checked
    /// entry of the same name.
    pub fn new(selected_options: Option<Vec<AppSelectOption>>) -> (r: Self)
        ensures
            r.options_spec().len() == 2,
            forall|k: int|
                0 <= k < 2 ==> #[trigger] r.options_spec()[k].index == k,
            r.options_spec()[0].name@ == NymReleaseAssets::MixNode.name_spec(),
            r.options_spec()[1].name@ == NymReleaseAssets::Gateway.name_spec(),
            forall|k: int|
                0 <= k < 2 ==> #[trigger] r.options_spec()[k].checked == name_checked_in(
                    prior_view(selected_options),
                    r.options_spec()[k].name@,
                ),
    {
        let prior: Vec<AppSelectOption> = match selected_options {
            Some(v) => v,
            None => Vec::new(),
        };
        let names = NymReleaseAssets::get_all_as_string();
        let mut options: Vec<AppSelectOption> = Vec::new();
        let mut k: usize = 0;
        while k < names.len()
            invariant
                k <= names@.len(),
                names@.len() == 2,
                names@[0]@ == NymReleaseAssets::MixNode.name_spec(),
                names@[1]@ == NymReleaseAssets::Gateway.name_spec(),
                options@.len() == k,
                forall|j: int| 0 <= j < k ==> #[trigger] options@[j].index == j,
                forall|j: int| 0 <= j < k ==> #[trigger] options@[j].name@ == names@[j]@,
                forall|j: int|
                    0 <= j < k ==> #[trigger] options@[j].checked == name_checked_in(
                        prior@,
                        options@[j].name@,
                    ),
                prior@ == prior_view(selected_options),
            decreases names@.len() - k,
        {
            let name = names[k].clone();
            let checked = has_checked_name(&prior, name.as_str());
            options.push(AppSelectOption { name, checked, index: k });
            k += 1;
        }
        Self { options }
    }

    /// The display names, in order.
    pub fn get_list_options(&self) -> (r: Vec<String>)
        ensures
            r@.len() == self.options_spec().len(),
            forall|k: int|
                0 <= k < r@.len() ==> #[trigger] r@[k]@ == self.options_spec()[k].name@,
    {
        let mut out: Vec<String> = Vec::new();
        let mut k: usize = 0;
        while k < self.options.len()
            invariant
                k <= self.options@.len(),
                out@.len() == k,
                forall|j: int| 0 <= j < k ==> #[trigger] out@[j]@ == self.options@[j].name@,
            decreases self.options@.len() - k,
        {
            out.push(self.options[k].name.clone());
            k += 1;
        }
        out
    }

    /// The indices of the checked entries, in order, from entry `i` on.
    fn checked_from(&self, i: usize) -> (r: Vec<usize>)
        requires
            i <= self.options@.len(),
        ensures
            r@ == checked_indices(self.options@.skip(i as int)),
        decreases self.options@.len() - i,
    {
        if i == self.options.len() {
            let r: Vec<usize> = Vec::new();
            proof {
                assert(self.options@.skip(i as int) =~= Seq::empty());
            }
            r
        } else {
            let mut rest = self.checked_from(i + 1);
            proof {
                assert(self.options@.skip(i as int).drop_first() =~= self.options@.skip(i + 1));
                assert(self.options@.skip(i as int)[0] == self.options@[i as int]);
            }
            if self.options[i].checked {
                rest.insert(0, self.options[i].index);
                proof {
                    assert(rest@ =~= seq![self.options@[i as int].index] + checked_indices(
                        self.options@.skip(i + 1),
                    ));
                }
            }
            rest
        }
    }

    /// The indices of the checked entries, in order.
    pub fn get_selected_options(&self) -> (r: Vec<usize>)
        ensures
            r@ == checked_indices(self.options_spec()),
    {
        let r = self.checked_from(0);
        proof {
            assert(self.options@.skip(0) =~= self.options@);
        }
        r
    }

    /// The selection after the operator answered: every entry keeps its
    /// name and position and is checked exactly when its name is among the
    /// answers.
    pub fn apply_answers(&self, answers: &Vec<String>) -> (r: Vec<AppSelectOption>)
        ensures
            r@.len() == self.options_spec().len(),
            forall|k: int|
                0 <= k < r@.len() ==> {
                    &&& (#[trigger] r@[k]).name@ == self.options_spec()[k].name@
                    &&& r@[k].index == self.options_spec()[k].index
                    &&& r@[k].checked == name_in(answers@, self.options_spec()[k].name@)
                },
    {
        let mut out: Vec<AppSelectOption> = Vec::new();
        let mut k: usize = 0;
        while k < self.options.len()
            invariant
                k <= self.options@.len(),
                out@.len() == k,
                forall|j: int|
                    0 <= j < k ==> {
                        &&& (#[trigger] out@[j]).name@ == self.options@[j].name@
                        &&& out@[j].index == self.options@[j].index
                        &&& out@[j].checked == name_in(answers@, self.options@[j].name@)
                    },
            decreases self.options@.len() - k,
        {
            let name = self.options[k].name.clone();
            let checked = contains_name(answers, name.as_str());
            out.push(AppSelectOption { name, checked, index: self.options[k].index });
            k += 1;
        }
        out
    }
}

} // verus!
