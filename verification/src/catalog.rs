//! The catalog of downloadable versions.
//!
//! The caller first runs the refresh script, whose failure is no more than a
//! warning, and then reads the catalog file. What it found goes to
//! `bedrock_get_versions` as a `CatalogRead`.

use vstd::prelude::*;
use vstd::string::*;
use crate::error::{viewed, BedrockError, ErrorView};
use crate::records::{optional_text, BedrockVersion, BedrockVersionsResponse, VersionView};
use crate::scripts::{
    invocation, invocation_spec, script_result, script_result_spec, OutcomeView, Script,
    ScriptInvocation, ScriptOutcome,
};
use crate::text::join2;

verus! {

/// What reading the catalog file gave.
#[derive(Debug, PartialEq, Eq)]
pub enum CatalogRead {
    /// The file could not be read.
    Missing,
    /// The file was read and is no catalog; the text says why.
    Malformed(String),
    /// The file holds this catalog.
    Parsed(BedrockVersionsResponse),
}

/// A `CatalogRead` as plain mathematical values.
pub enum CatalogReadView {
    Missing,
    Malformed(Seq<char>),
    Parsed(Seq<VersionView>),
}

impl View for CatalogRead {
    type V = CatalogReadView;

    open spec fn view(&self) -> CatalogReadView {
        match self {
            CatalogRead::Missing => CatalogReadView::Missing,
            CatalogRead::Malformed(cause) => CatalogReadView::Malformed(cause@),
            CatalogRead::Parsed(catalog) => CatalogReadView::Parsed(catalog@),
        }
    }
}

/// The versions on offer: those of the catalog file. A file that cannot be
/// read counts as an empty catalog; a malformed one is a failure.
pub open spec fn get_versions_spec(read: CatalogReadView) -> Result<Seq<VersionView>, ErrorView> {
    match read {
        CatalogReadView::Missing => Ok(Seq::empty()),
        CatalogReadView::Malformed(cause) => Err(
            ErrorView::Parse("Failed to parse version.json: "@ + cause),
        ),
        CatalogReadView::Parsed(versions) => Ok(versions),
    }
}

/// How to run the script that writes the catalog file anew. It reads no
/// input.
pub fn refresh_invocation(scripts_dir: &str) -> (r: ScriptInvocation)
    ensures
        r@ == invocation_spec(Script::RefreshCatalog, scripts_dir@, None),
{
    invocation(Script::RefreshCatalog, scripts_dir, None)
}

/// The warning that a failed refresh leaves, and `None` after a refresh that
/// succeeded.
pub open spec fn refresh_warning_spec(outcome: OutcomeView) -> Option<Seq<char>> {
    match script_result_spec(Script::RefreshCatalog, outcome) {
        Ok(()) => None,
        Err(e) => Some("Warning: "@ + e.message()),
    }
}

/// Judges the run of the refresh script. A failure does not stop the
/// catalog from being read: it only leaves a warning.
pub fn refresh_warning(outcome: &ScriptOutcome) -> (r: Option<String>)
    ensures
        optional_text(r) == refresh_warning_spec(outcome@),
{
    match script_result(Script::RefreshCatalog, outcome) {
        Ok(()) => None,
        Err(e) => Some(join2("Warning: ", e.message().as_str())),
    }
}

/// The versions on offer, from what reading the catalog file gave.
pub fn bedrock_get_versions(read: CatalogRead) -> (r: Result<BedrockVersionsResponse, BedrockError>)
    ensures
        viewed(r) == get_versions_spec(read@),
{
    match read {
        CatalogRead::Missing => {
            let versions: Vec<BedrockVersion> = Vec::new();
            let catalog = BedrockVersionsResponse { versions };
            assert(catalog@ =~= Seq::empty());
            Ok(catalog)
        },
        CatalogRead::Malformed(cause) => Err(
            BedrockError::Parse(join2("Failed to parse version.json: ", cause.as_str())),
        ),
        CatalogRead::Parsed(catalog) => Ok(catalog),
    }
}

} // verus!
