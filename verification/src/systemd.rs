//! The service-descriptor mutator.
//!
//! The supervisor's unit record for an asset is an externally owned text
//! with two independently addressable fields: `ExecStart` (a path plus a
//! preserved argument tail) and `Description` (free text).  The record is
//! mutated by targeted, line-scoped substitution, never rebuilt from
//! scratch, so operator-added arguments survive.  Reading and writing the
//! record, and reloading the supervisor, are the driver's work; everything
//! that decides what the new text looks like is verified here.

use vstd::prelude::*;
use vstd::string::*;

use crate::assets::NymReleaseAssets;
use crate::errors::{UpdateError, UpdateErrorKind};
use crate::lines::{join_lines, lemma_lines_no_nl, lemma_lines_of_joined, lines_of, split_lines};
use crate::text::{match_at, replace_first, replaced_first, starts_with, views_of};
use crate::tokens::{extract_field, field_after, trim, trimmed};

verus! {

/// The two descriptor fields the updater rewrites.
#[derive(Debug)]
pub enum NymSystemDProperty {
    Description,
    ExecStart,
}

impl NymSystemDProperty {
    /// The property's key in the descriptor, as a spec-level value.
    pub open spec fn as_str_spec(&self) -> Seq<char> {
        match self {
            NymSystemDProperty::Description => "Description"@,
            NymSystemDProperty::ExecStart => "ExecStart"@,
        }
    }

    /// The property's key in the descriptor.
    pub fn as_str(&self) -> (r: &'static str)
        ensures
            r@ == self.as_str_spec(),
    {
        match self {
            NymSystemDProperty::Description => "Description",
            NymSystemDProperty::ExecStart => "ExecStart",
        }
    }
}

/// One line after the line-scoped substitution `key=value`: a line that
/// starts with `key=` is replaced whole, any other line is kept verbatim.
pub open spec fn set_prop_line(line: Seq<char>, key: Seq<char>, value: Seq<char>) -> Seq<char> {
    if match_at(line, key + "="@, 0) {
        key + "="@ + value
    } else {
        line
    }
}

/// Every line after the line-scoped substitution `key=value`.
pub open spec fn set_prop_lines(ls: Seq<Seq<char>>, key: Seq<char>, value: Seq<char>) -> Seq<
    Seq<char>,
> {
    ls.map_values(|l: Seq<char>| set_prop_line(l, key, value))
}

/// A sequence of characters free of newlines.
pub open spec fn no_nl(s: Seq<char>) -> bool {
    forall|j: int| 0 <= j < s.len() ==> s[j] != '\n'
}

/// Neither descriptor key, followed by `=`, contains a newline.
proof fn lemma_key_no_nl(property: &NymSystemDProperty)
    ensures
        no_nl(property.as_str_spec() + "="@),
{
    reveal_strlit("Description");
    reveal_strlit("ExecStart");
    reveal_strlit("=");
    match property {
        NymSystemDProperty::Description => {
            assert forall|j: int|
                0 <= j < ("Description"@ + "="@).len() implies ("Description"@ + "="@)[j]
                != '\n' by {
                if j < 11 {
                    assert(("Description"@ + "="@)[j] == "Description"@[j]);
                } else {
                    assert(("Description"@ + "="@)[j] == "="@[j - 11]);
                }
            }
        },
        NymSystemDProperty::ExecStart => {
            assert forall|j: int|
                0 <= j < ("ExecStart"@ + "="@).len() implies ("ExecStart"@ + "="@)[j] != '\n' by {
                if j < 9 {
                    assert(("ExecStart"@ + "="@)[j] == "ExecStart"@[j]);
                } else {
                    assert(("ExecStart"@ + "="@)[j] == "="@[j - 9]);
                }
            }
        },
    }
}

/// Descriptor operations for one asset's unit record.
pub struct NymSystemdFileUtil {
    asset: NymReleaseAssets,
}

impl NymSystemdFileUtil {
    /// The asset this mutator works for.
    pub closed spec fn asset_spec(&self) -> NymReleaseAssets {
        self.asset
    }

    pub fn new(asset: NymReleaseAssets) -> (r: Self)
        ensures
            r.asset_spec() == asset,
    {
        Self { asset }
    }

    /// The fixed path of the asset's unit record.
    pub fn get_service_path(&self) -> (r: String)
        ensures
            r@ == "/etc/systemd/system/"@ + self.asset_spec().name_spec() + ".service"@,
    {
        let mut out = "/etc/systemd/system/".to_owned();
        out.append(self.asset.name());
        out.append(".service");
        out
    }

    /// The binary path currently wired into the unit: the `path=` token of
    /// the supervisor's normalized `ExecStart` representation, handed in as
    /// `show_output`, without the blanks the representation puts around it.
    /// A representation without the token is a parse failure.
    pub fn current_exec_start_path(&self, show_output: &str) -> (r: Result<String, UpdateError>)
        ensures
            match r {
                Ok(p) => field_after(show_output@, "path="@) matches Some(v) && p@ == trimmed(v),
                Err(e) => field_after(show_output@, "path="@) is None && e.kind_spec()
                    == UpdateErrorKind::Parse,
            },
    {
        match extract_field(show_output, "path=") {
            Some(p) => Ok(trim(p.as_str())),
            None => Err(
                UpdateError::ParseError(
                    "no path= token in the supervisor's ExecStart output".to_owned(),
                ),
            ),
        }
    }

    /// The full current `ExecStart` command line: the `argv[]=` token of the
    /// supervisor's normalized representation, handed in as `show_output`,
    /// without the blanks the representation puts around it.
    pub fn exec_start_full_line(&self, show_output: &str) -> (r: Result<String, UpdateError>)
        ensures
            match r {
                Ok(l) => field_after(show_output@, "argv[]="@) matches Some(v) && l@ == trimmed(
                    v,
                ),
                Err(e) => field_after(show_output@, "argv[]="@) is None && e.kind_spec()
                    == UpdateErrorKind::Parse,
            },
    {
        match extract_field(show_output, "argv[]=") {
            Some(l) => Ok(trim(l.as_str())),
            None => Err(
                UpdateError::ParseError(
                    "no argv[]= token in the supervisor's ExecStart output".to_owned(),
                ),
            ),
        }
    }

    /// The new `ExecStart` command line: the old path replaced by the new
    /// one inside the existing full line, every trailing argument kept
    /// verbatim.
    pub fn updated_exec_start_line(full_line: &str, old_path: &str, new_path: &str) -> (r: String)
        ensures
            r@ == replaced_first(full_line@, old_path@, new_path@),
    {
        replace_first(full_line, old_path, new_path)
    }

    /// The generated `Description` value for an asset running `version`.
    pub open spec fn description_spec(asset: NymReleaseAssets, version: Seq<char>) -> Seq<char> {
        "Nym "@ + asset.name_spec() + " "@ + version
    }

    /// The generated `Description` value embedding the asset name and the
    /// version it now runs.
    pub fn description_value(&self, version: &str) -> (r: String)
        ensures
            r@ == Self::description_spec(self.asset_spec(), version@),
    {
        let mut out = "Nym ".to_owned();
        out.append(self.asset.name());
        out.append(" ");
        out.append(version);
        out
    }

    /// Substitute `value` for the value of `property` in the descriptor
    /// text: every line starting with the property's key and `=` is replaced
    /// by `key=value`, every other line is kept verbatim.
    pub fn set_service_property(
        &self,
        descriptor_text: &str,
        property: &NymSystemDProperty,
        value: &str,
    ) -> (r: String)
        requires
            no_nl(value@),
        ensures
            lines_of(r@) == set_prop_lines(lines_of(descriptor_text@), property.as_str_spec(), value@),
    {
        let key = property.as_str();
        let mut prefix = key.to_owned();
        prefix.append("=");
        let lines = split_lines(descriptor_text);
        let mut out_lines: Vec<String> = Vec::new();
        let mut i: usize = 0;
        while i < lines.len()
            invariant
                i <= lines@.len(),
                prefix@ == property.as_str_spec() + "="@,
                out_lines@.len() == i,
                forall|k: int|
                    0 <= k < i ==> #[trigger] out_lines@[k]@ == set_prop_line(
                        lines@[k]@,
                        property.as_str_spec(),
                        value@,
                    ),
            decreases lines@.len() - i,
        {
            if starts_with(lines[i].as_str(), prefix.as_str()) {
                let mut repl = prefix.clone();
                repl.append(value);
                out_lines.push(repl);
                proof {
                    assert(out_lines@[i as int]@ =~= property.as_str_spec() + "="@ + value@);
                }
            } else {
                out_lines.push(lines[i].clone());
            }
            i += 1;
        }
        let r = join_lines(&out_lines);
        proof {
            let keyv = property.as_str_spec();
            let orig_lines = lines_of(descriptor_text@);
            let new_lines = set_prop_lines(orig_lines, keyv, value@);
            assert(views_of(lines@) == orig_lines);
            assert forall|k: int| 0 <= k < new_lines.len() implies views_of(out_lines@)[k]
                == new_lines[k] by {
                assert(orig_lines[k] == lines@[k]@);
            }
            assert(views_of(out_lines@) =~= new_lines);
            crate::lines::lemma_lines_of_len(descriptor_text@);
            lemma_lines_no_nl(descriptor_text@);
            lemma_key_no_nl(property);
            assert forall|k: int, j: int|
                0 <= k < new_lines.len() && 0 <= j < new_lines[k].len() implies new_lines[k][j]
                != '\n' by {
                if match_at(orig_lines[k], keyv + "="@, 0) {
                    reveal_strlit("=");
                    assert("="@.len() == 1);
                    assert(new_lines[k] == keyv + "="@ + value@);
                    if j < keyv.len() + 1 {
                        assert(new_lines[k][j] == (keyv + "="@)[j]);
                    } else {
                        assert(new_lines[k][j] == value@[j - (keyv.len() + 1)]);
                    }
                } else {
                    assert(new_lines[k] == orig_lines[k]);
                    assert(orig_lines[k][j] != '\n');
                }
            }
            lemma_lines_of_joined(new_lines);
        }
        r
    }

    /// The descriptor text after the `ExecStart` rewiring: the old path --
    /// the `path=` token of `show_output` -- is replaced by `new_path`
    /// inside the full current command line -- the `argv[]=` token -- and
    /// that new line becomes the value of the `ExecStart` line of the
    /// descriptor.  Fails with a parse error when either token is missing,
    /// or when what was handed in carries a newline and so cannot be a
    /// single descriptor line.
    pub fn update_exec_start_prop(
        &self,
        descriptor_text: &str,
        show_output: &str,
        new_path: &str,
    ) -> (r: Result<String, UpdateError>)
        ensures
            match r {
                Ok(new_text) => {
                    &&& field_after(show_output@, "path="@) matches Some(old_path)
                    &&& field_after(show_output@, "argv[]="@) matches Some(full_line)
                    &&& no_nl(
                        replaced_first(
                            trimmed(field_after(show_output@, "argv[]="@).unwrap()),
                            trimmed(field_after(show_output@, "path="@).unwrap()),
                            new_path@,
                        ),
                    )
                    &&& lines_of(new_text@) == set_prop_lines(
                        lines_of(descriptor_text@),
                        "ExecStart"@,
                        replaced_first(
                            trimmed(field_after(show_output@, "argv[]="@).unwrap()),
                            trimmed(field_after(show_output@, "path="@).unwrap()),
                            new_path@,
                        ),
                    )
                },
                Err(e) => {
                    &&& e.kind_spec() == UpdateErrorKind::Parse
                    &&& (field_after(show_output@, "path="@) is None || field_after(
                        show_output@,
                        "argv[]="@,
                    ) is None || !no_nl(
                        replaced_first(
                            trimmed(field_after(show_output@, "argv[]="@).unwrap()),
                            trimmed(field_after(show_output@, "path="@).unwrap()),
                            new_path@,
                        ),
                    ))
                },
            },
    {
        let old_path = match self.current_exec_start_path(show_output) {
            Ok(p) => p,
            Err(e) => {
                return Err(e);
            },
        };
        let full_line = match self.exec_start_full_line(show_output) {
            Ok(l) => l,
            Err(e) => {
                return Err(e);
            },
        };
        let new_line = Self::updated_exec_start_line(
            full_line.as_str(),
            old_path.as_str(),
            new_path,
        );
        let nl_at = crate::text::find_first_in(new_line.as_str(), '\n', '\n');
        proof {
            crate::text::lemma_first_in(new_line@, '\n', '\n');
        }
        if nl_at != new_line.as_str().unicode_len() {
            return Err(
                UpdateError::ParseError(
                    "the rewired ExecStart line carries a newline".to_owned(),
                ),
            );
        }
        Ok(self.set_service_property(descriptor_text, &NymSystemDProperty::ExecStart, new_line.as_str()))
    }

    /// The descriptor text after the `Description` rewrite: the description
    /// line becomes the generated string embedding the asset name and
    /// `version`.  `version` must be newline-free; the orchestrator hands in
    /// a whitespace-free token.
    pub fn update_description_prop(&self, descriptor_text: &str, version: &str) -> (r: String)
        requires
            no_nl(version@),
        ensures
            lines_of(r@) == set_prop_lines(
                lines_of(descriptor_text@),
                "Description"@,
                Self::description_spec(self.asset_spec(), version@),
            ),
    {
        let value = self.description_value(version);
        proof {
            reveal_strlit("Nym ");
            reveal_strlit(" ");
            reveal_strlit("nym-mixnode");
            reveal_strlit("nym-gateway");
            assert(no_nl(value@));
        }
        self.set_service_property(descriptor_text, &NymSystemDProperty::Description, value.as_str())
    }
}

} // verus!
