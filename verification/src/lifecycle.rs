//! Bringing an instance into being: download the version, install it, and
//! register the record.
//!
//! The steps are taken by the caller, one outside action at a time. After
//! each action it hands the outcome to this module, which says what the
//! outcome means, which notices go to the observer, and what to do next. A
//! failure ends the work where it stands: nothing that was done is undone.

use vstd::prelude::*;
use vstd::string::*;
use crate::error::{outcome_view, viewed, BedrockError, ErrorView};
use crate::paths::{
    artifact_path, artifact_path_spec, derived_identifier, derived_identifier_spec, downloads_dir,
    downloads_dir_spec,
};
use crate::records::{BedrockInstance, InstanceView};
use crate::scripts::{
    invocation, invocation_spec, script_result, script_result_spec, InvocationView, OutcomeView,
    Script, ScriptInvocation, ScriptOutcome,
};
use crate::text::join2;

verus! {

/// A notice for the observer. Notices are advisory: whether one arrives
/// changes nothing.
#[derive(Debug, Clone, Copy, PartialEq, Eq, Structural)]
pub enum Progress {
    /// The download of the version begins.
    Downloading,
    /// The download script has ended well.
    Downloaded,
    /// The installation begins.
    Installing,
    /// The install script has ended well.
    Installed,
    /// The record is stored.
    Created,
}

impl Progress {
    /// Name of the event under which the notice is sent.
    pub open spec fn channel_spec(self) -> Seq<char> {
        match self {
            Progress::Downloading => "bedrock-creation-status"@,
            Progress::Downloaded => "bedrock-download-progress"@,
            Progress::Installing => "bedrock-creation-status"@,
            Progress::Installed => "bedrock-install-progress"@,
            Progress::Created => "bedrock-creation-status"@,
        }
    }

    /// Text of the notice.
    pub open spec fn message_spec(self) -> Seq<char> {
        match self {
            Progress::Downloading => "Downloading Bedrock version..."@,
            Progress::Downloaded => "Download completed successfully!"@,
            Progress::Installing => "Installing Bedrock version..."@,
            Progress::Installed => "Installation completed successfully!"@,
            Progress::Created => "Bedrock instance created successfully!"@,
        }
    }

    /// Name of the event under which the notice is sent.
    pub fn channel(&self) -> (r: &'static str)
        ensures
            r@ == self.channel_spec(),
    {
        match self {
            Progress::Downloading => "bedrock-creation-status",
            Progress::Downloaded => "bedrock-download-progress",
            Progress::Installing => "bedrock-creation-status",
            Progress::Installed => "bedrock-install-progress",
            Progress::Created => "bedrock-creation-status",
        }
    }

    /// Text of the notice.
    pub fn message(&self) -> (r: &'static str)
        ensures
            r@ == self.message_spec(),
    {
        match self {
            Progress::Downloading => "Downloading Bedrock version...",
            Progress::Downloaded => "Download completed successfully!",
            Progress::Installing => "Installing Bedrock version...",
            Progress::Installed => "Installation completed successfully!",
            Progress::Created => "Bedrock instance created successfully!",
        }
    }
}

/// What to do to download a version: create `downloads_dir` if it is
/// absent, then run `invocation`. The script is expected to leave the
/// artifact at `artifact`.
#[derive(Debug, PartialEq, Eq)]
pub struct DownloadPlan {
    pub downloads_dir: String,
    pub invocation: ScriptInvocation,
    pub artifact: String,
}

/// A `DownloadPlan` as plain mathematical values.
pub struct DownloadPlanView {
    pub downloads_dir: Seq<char>,
    pub invocation: InvocationView,
    pub artifact: Seq<char>,
}

impl View for DownloadPlan {
    type V = DownloadPlanView;

    open spec fn view(&self) -> DownloadPlanView {
        DownloadPlanView {
            downloads_dir: self.downloads_dir@,
            invocation: self.invocation@,
            artifact: self.artifact@,
        }
    }
}

/// How carrying out a `DownloadPlan` ended.
#[derive(Debug, PartialEq, Eq)]
pub enum DownloadOutcome {
    /// The downloads directory could not be created; the text says why. The
    /// script was not run.
    DirectoryFailed(String),
    /// The directory is there, and the script ended like this.
    Script(ScriptOutcome),
}

/// A `DownloadOutcome` as plain mathematical values.
pub enum DownloadOutcomeView {
    DirectoryFailed(Seq<char>),
    Script(OutcomeView),
}

impl View for DownloadOutcome {
    type V = DownloadOutcomeView;

    open spec fn view(&self) -> DownloadOutcomeView {
        match self {
            DownloadOutcome::DirectoryFailed(cause) => DownloadOutcomeView::DirectoryFailed(
                cause@,
            ),
            DownloadOutcome::Script(outcome) => DownloadOutcomeView::Script(outcome@),
        }
    }
}

/// What an operation came to, and the notices that it owes the observer.
#[derive(Debug, PartialEq, Eq)]
pub struct Report<T> {
    pub result: Result<T, BedrockError>,
    pub notices: Vec<Progress>,
}

/// The plan that downloads `version` with the scripts of `scripts_dir`.
pub open spec fn download_plan_spec(scripts_dir: Seq<char>, version: Seq<char>) -> DownloadPlanView {
    DownloadPlanView {
        downloads_dir: downloads_dir_spec(scripts_dir),
        invocation: invocation_spec(Script::Download, scripts_dir, Some(version)),
        artifact: artifact_path_spec(scripts_dir, version),
    }
}

/// What the end of a download means: the path of the artifact where the
/// script ended well, and else the failure.
pub open spec fn download_result_spec(
    scripts_dir: Seq<char>,
    version: Seq<char>,
    outcome: DownloadOutcomeView,
) -> Result<Seq<char>, ErrorView> {
    match outcome {
        DownloadOutcomeView::DirectoryFailed(cause) => Err(
            ErrorView::Io("Failed to create downloads directory: "@ + cause),
        ),
        DownloadOutcomeView::Script(ended) => match script_result_spec(Script::Download, ended) {
            Ok(()) => Ok(artifact_path_spec(scripts_dir, version)),
            Err(e) => Err(e),
        },
    }
}

/// The notices that the end of a download owes: one where it ended well.
pub open spec fn download_notices_spec(outcome: DownloadOutcomeView) -> Seq<Progress> {
    if outcome matches DownloadOutcomeView::Script(ended) && script_result_spec(
        Script::Download,
        ended,
    ) is Ok {
        seq![Progress::Downloaded]
    } else {
        Seq::empty()
    }
}

/// The notices that the end of an installation owes: one where it ended
/// well.
pub open spec fn install_notices_spec(outcome: OutcomeView) -> Seq<Progress> {
    if script_result_spec(Script::Install, outcome) is Ok {
        seq![Progress::Installed]
    } else {
        Seq::empty()
    }
}

/// Says how to download `version` with the scripts of `scripts_dir`.
pub fn download_plan(scripts_dir: &str, version: &str) -> (plan: DownloadPlan)
    ensures
        plan@ == download_plan_spec(scripts_dir@, version@),
{
    DownloadPlan {
        downloads_dir: downloads_dir(scripts_dir),
        invocation: invocation(Script::Download, scripts_dir, Some(version)),
        artifact: artifact_path(scripts_dir, version),
    }
}

/// Judges the end of a download. Where the script ended well the result is
/// the path at which the artifact is expected; whether it is there is not
/// looked at.
pub fn bedrock_download_version(scripts_dir: &str, version: &str, outcome: &DownloadOutcome) -> (r:
    Report<String>)
    ensures
        viewed(r.result) == download_result_spec(scripts_dir@, version@, outcome@),
        r.notices@ == download_notices_spec(outcome@),
{
    match outcome {
        DownloadOutcome::DirectoryFailed(cause) => Report {
            result: Err(
                BedrockError::Io(join2("Failed to create downloads directory: ", cause.as_str())),
            ),
            notices: Vec::new(),
        },
        DownloadOutcome::Script(ended) => match script_result(Script::Download, ended) {
            Ok(()) => {
                let mut notices: Vec<Progress> = Vec::new();
                notices.push(Progress::Downloaded);
                Report { result: Ok(artifact_path(scripts_dir, version)), notices }
            },
            Err(e) => Report { result: Err(e), notices: Vec::new() },
        },
    }
}

/// Says how to install the artifact at `appx_path` with the scripts of
/// `scripts_dir`. An empty path leaves the choice of the artifact to the
/// script.
pub fn install_invocation(scripts_dir: &str, appx_path: &str) -> (r: ScriptInvocation)
    ensures
        r@ == invocation_spec(Script::Install, scripts_dir@, Some(appx_path@)),
{
    invocation(Script::Install, scripts_dir, Some(appx_path))
}

/// Judges the end of an installation.
pub fn bedrock_install_version(outcome: &ScriptOutcome) -> (r: Report<()>)
    ensures
        outcome_view(r.result) == script_result_spec(Script::Install, outcome@),
        r.notices@ == install_notices_spec(outcome@),
{
    match script_result(Script::Install, outcome) {
        Ok(()) => {
            let mut notices: Vec<Progress> = Vec::new();
            notices.push(Progress::Installed);
            Report { result: Ok(()), notices }
        },
        Err(e) => Report { result: Err(e), notices: Vec::new() },
    }
}

/// The record of a new instance. It counts as installed without a look at
/// the artifact.
pub open spec fn new_record_spec(name: Seq<char>, version: Seq<char>, appx_path: Seq<char>)
    -> InstanceView {
    InstanceView {
        name,
        version,
        path: derived_identifier_spec(name),
        installed: true,
        appx_path: Some(appx_path),
    }
}

/// Builds the record of a new instance.
pub fn new_record(name: String, version: String, appx_path: String) -> (record: BedrockInstance)
    ensures
        record@ == new_record_spec(name@, version@, appx_path@),
{
    let path = derived_identifier(name.as_str());
    BedrockInstance { name, version, path, installed: true, appx_path: Some(appx_path) }
}

} // verus!
