//! The records that the launcher reads and writes.

use vstd::prelude::*;

verus! {

/// One downloadable version, as the catalog lists it.
#[derive(Debug, PartialEq, Eq)]
pub struct BedrockVersion {
    pub id: String,
    pub url: String,
    pub sha256: Option<String>,
}

/// The catalog of downloadable versions.
#[derive(Debug, PartialEq, Eq)]
pub struct BedrockVersionsResponse {
    pub versions: Vec<BedrockVersion>,
}

/// One instance: a named, versioned installation of the game.
///
/// `path` is the identifier derived from `name`; it is the stem of the file
/// that stores the record. `installed` is taken on trust: nothing checks that
/// `appx_path` leads to an artifact.
#[derive(Debug, PartialEq, Eq)]
pub struct BedrockInstance {
    pub name: String,
    pub version: String,
    pub path: String,
    pub installed: bool,
    pub appx_path: Option<String>,
}

/// A `BedrockVersion` as plain mathematical values.
pub struct VersionView {
    pub id: Seq<char>,
    pub url: Seq<char>,
    pub sha256: Option<Seq<char>>,
}

/// A `BedrockInstance` as plain mathematical values.
pub struct InstanceView {
    pub name: Seq<char>,
    pub version: Seq<char>,
    pub path: Seq<char>,
    pub installed: bool,
    pub appx_path: Option<Seq<char>>,
}

/// An optional text as an optional sequence of characters.
pub open spec fn optional_text(t: Option<String>) -> Option<Seq<char>> {
    match t {
        Some(s) => Some(s@),
        None => None,
    }
}

impl View for BedrockVersion {
    type V = VersionView;

    open spec fn view(&self) -> VersionView {
        VersionView { id: self.id@, url: self.url@, sha256: optional_text(self.sha256) }
    }
}

impl DeepView for BedrockVersion {
    type V = VersionView;

    open spec fn deep_view(&self) -> VersionView {
        self@
    }
}

impl View for BedrockVersionsResponse {
    type V = Seq<VersionView>;

    open spec fn view(&self) -> Seq<VersionView> {
        self.versions.deep_view()
    }
}

impl View for BedrockInstance {
    type V = InstanceView;

    open spec fn view(&self) -> InstanceView {
        InstanceView {
            name: self.name@,
            version: self.version@,
            path: self.path@,
            installed: self.installed,
            appx_path: optional_text(self.appx_path),
        }
    }
}

impl DeepView for BedrockInstance {
    type V = InstanceView;

    open spec fn deep_view(&self) -> InstanceView {
        self@
    }
}

/// A copy of an optional text.
pub fn copy_optional_text(t: &Option<String>) -> (r: Option<String>)
    ensures
        r == *t,
{
    match t {
        Some(s) => Some(s.clone()),
        None => None,
    }
}

impl Clone for BedrockVersion {
    fn clone(&self) -> (r: Self)
        ensures
            r == *self,
    {
        BedrockVersion {
            id: self.id.clone(),
            url: self.url.clone(),
            sha256: copy_optional_text(&self.sha256),
        }
    }
}

impl Clone for BedrockInstance {
    fn clone(&self) -> (r: Self)
        ensures
            r == *self,
    {
        BedrockInstance {
            name: self.name.clone(),
            version: self.version.clone(),
            path: self.path.clone(),
            installed: self.installed,
            appx_path: copy_optional_text(&self.appx_path),
        }
    }
}

} // verus!
