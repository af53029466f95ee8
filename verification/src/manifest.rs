//! Adding a dependency to the text of a `Cargo.toml`.

use vstd::prelude::*;
use vstd::string::*;

verus! {

/// The text of a manifest after the dependency `name` at `version` was
/// put under its `dependencies`, as the `toml_edit` crate writes it; or
/// `None` where the text is no TOML, or holds something under
/// `dependencies` that is no table.
pub uninterp spec fn manifest_with_dependency(
    manifest: Seq<char>,
    name: Seq<char>,
    version: Seq<char>,
) -> Option<Seq<char>>;

/// Parses the text as a `toml_edit::DocumentMut`, takes the entry
/// `dependencies` (`Table::entry`, with an empty table where there is
/// none), inserts the version under the name (`TableLike::insert`) and
/// writes the document out again. The result is named, not described:
/// see [`manifest_with_dependency`].
#[verifier::external_body]
pub(crate) fn edit_manifest(manifest: &str, name: &str, version: &str) -> (edited: Option<String>)
    ensures
        edited.deep_view() == manifest_with_dependency(manifest@, name@, version@),
{
    let mut document = manifest.parse::<toml_edit::DocumentMut>().ok()?;
    let dependencies = document.entry("dependencies").or_insert(toml_edit::table());
    dependencies.as_table_like_mut()?.insert(name, toml_edit::value(version));
    Some(document.to_string())
}

/// Why a dependency could not be added.
#[derive(Debug, Clone, Copy, PartialEq, Eq)]
pub enum ManifestError {
    /// The manifest is no TOML, or its `dependencies` are no table.
    InvalidManifest,
}

/// The text of the manifest with the dependency `crate_name` at
/// `version` added or replaced. The rest of the text is for `toml_edit`
/// to keep.
pub fn add_dependency(manifest: &str, crate_name: &str, version: &str) -> (edited: Result<
    String,
    ManifestError,
>)
    ensures
        match manifest_with_dependency(manifest@, crate_name@, version@) {
            Some(text) => edited matches Ok(written) && written@ == text,
            None => edited == Err::<String, ManifestError>(ManifestError::InvalidManifest),
        },
{
    match edit_manifest(manifest, crate_name, version) {
        Some(written) => Ok(written),
        None => Err(ManifestError::InvalidManifest),
    }
}

impl ManifestError {
    /// The error in words.
    pub fn message(&self) -> (text: &'static str)
        ensures
            text@ == "Invalid TOML format"@,
    {
        "Invalid TOML format"
    }
}

} // verus!
