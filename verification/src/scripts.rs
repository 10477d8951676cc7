//! The helper scripts: where they are, how one is invoked, and what the way
//! it ended means.
//!
//! The caller starts the process. It runs the program of a
//! `ScriptInvocation` with the script's path as its only argument, in the
//! working directory named there, writes the input line if there is one, waits
//! for the exit, and reports what happened as a `ScriptOutcome`.

use vstd::prelude::*;
use vstd::string::*;
use vstd::utf8::{decode_utf8, valid_utf8};
use crate::error::{outcome_view, text_outcome_view, BedrockError, ErrorView};
use crate::paths::{
    app_dir, app_dir_spec, join_path, joined, no_data_dir, no_data_dir_message, user_data_dir,
    BUNDLED_SCRIPTS_DIR, DEV_SCRIPTS_DIR, USER_SCRIPTS_DIR,
};
use crate::records::optional_text;
use crate::text::{captured_text, join2, utf8_lossy_of};

verus! {

/// The program that runs every helper script.
pub const SCRIPT_RUNNER: &'static str = "node";

/// The helper scripts.
#[derive(Debug, Clone, Copy, PartialEq, Eq)]
pub enum Script {
    /// Writes the catalog file anew.
    RefreshCatalog,
    /// Downloads the artifact of one version.
    Download,
    /// Installs a downloaded artifact.
    Install,
}

impl Script {
    /// Name of the script's file in the scripts directory.
    pub open spec fn file_name_spec(self) -> Seq<char> {
        match self {
            Script::RefreshCatalog => "generate_version_json.js"@,
            Script::Download => "download_bedrock_appx.js"@,
            Script::Install => "install_bedrock_appx.js"@,
        }
    }

    /// Name of the script's file in the scripts directory.
    pub fn file_name(&self) -> (r: &'static str)
        ensures
            r@ == self.file_name_spec(),
    {
        match self {
            Script::RefreshCatalog => "generate_version_json.js",
            Script::Download => "download_bedrock_appx.js",
            Script::Install => "install_bedrock_appx.js",
        }
    }

    /// Start of the failure text for a script that could not be started.
    pub open spec fn not_started_prefix(self) -> Seq<char> {
        match self {
            Script::RefreshCatalog => "Could not run version update script: "@,
            Script::Download => "Failed to start download script: "@,
            Script::Install => "Failed to start install script: "@,
        }
    }

    /// Start of the failure text for a script that did not take its input.
    pub open spec fn input_failed_prefix(self) -> Seq<char> {
        match self {
            Script::RefreshCatalog => "Could not run version update script: "@,
            Script::Download => "Failed to send version to script: "@,
            Script::Install => "Failed to send path to script: "@,
        }
    }

    /// Start of the failure text for a script whose exit could not be
    /// awaited.
    pub open spec fn wait_failed_prefix(self) -> Seq<char> {
        match self {
            Script::RefreshCatalog => "Could not run version update script: "@,
            Script::Download => "Failed to wait for download script: "@,
            Script::Install => "Failed to wait for install script: "@,
        }
    }

    /// Start of the failure text for a script that ended with a failure
    /// status.
    pub open spec fn failed_prefix(self) -> Seq<char> {
        match self {
            Script::RefreshCatalog => "Failed to update Bedrock versions: "@,
            Script::Download => "Download script failed: "@,
            Script::Install => "Install script failed: "@,
        }
    }

    fn not_started_text(&self) -> (r: &'static str)
        ensures
            r@ == self.not_started_prefix(),
    {
        match self {
            Script::RefreshCatalog => "Could not run version update script: ",
            Script::Download => "Failed to start download script: ",
            Script::Install => "Failed to start install script: ",
        }
    }

    fn input_failed_text(&self) -> (r: &'static str)
        ensures
            r@ == self.input_failed_prefix(),
    {
        match self {
            Script::RefreshCatalog => "Could not run version update script: ",
            Script::Download => "Failed to send version to script: ",
            Script::Install => "Failed to send path to script: ",
        }
    }

    fn wait_failed_text(&self) -> (r: &'static str)
        ensures
            r@ == self.wait_failed_prefix(),
    {
        match self {
            Script::RefreshCatalog => "Could not run version update script: ",
            Script::Download => "Failed to wait for download script: ",
            Script::Install => "Failed to wait for install script: ",
        }
    }

    fn failed_text(&self) -> (r: &'static str)
        ensures
            r@ == self.failed_prefix(),
    {
        match self {
            Script::RefreshCatalog => "Failed to update Bedrock versions: ",
            Script::Download => "Download script failed: ",
            Script::Install => "Install script failed: ",
        }
    }
}

/// Which of the two fixed scripts directories exist on disk.
#[derive(Debug, Clone, Copy, PartialEq, Eq)]
pub struct ScriptsProbe {
    /// Whether `BUNDLED_SCRIPTS_DIR` exists.
    pub bundled_exists: bool,
    /// Whether `DEV_SCRIPTS_DIR` exists.
    pub dev_exists: bool,
}

/// Scripts directory of the user inside a data directory.
pub open spec fn user_scripts_dir_spec(data_dir: Seq<char>) -> Seq<char> {
    joined(app_dir_spec(data_dir), "scripts"@)
}

/// The scripts directory: the bundled one if it exists, else the one of a
/// development checkout if it exists, else the user's own, which is taken
/// without a look at the disk. Only the last needs the data directory.
pub open spec fn scripts_dir_spec(probe: ScriptsProbe, data_dir: Option<Seq<char>>) -> Result<
    Seq<char>,
    ErrorView,
> {
    if probe.bundled_exists {
        Ok("scripts"@)
    } else if probe.dev_exists {
        Ok("../../../ß¬α¿»Γδ/scripts"@)
    } else {
        match data_dir {
            Some(dir) => Ok(user_scripts_dir_spec(dir)),
            None => Err(ErrorView::Io(no_data_dir_message())),
        }
    }
}

/// Chooses the scripts directory from what the probe found and from the
/// user's data directory.
pub fn scripts_dir_from(probe: ScriptsProbe, data_dir: Option<String>) -> (r: Result<
    String,
    BedrockError,
>)
    ensures
        text_outcome_view(r) == scripts_dir_spec(probe, optional_text(data_dir)),
{
    if probe.bundled_exists {
        Ok(String::from_str(BUNDLED_SCRIPTS_DIR))
    } else if probe.dev_exists {
        Ok(String::from_str(DEV_SCRIPTS_DIR))
    } else {
        match data_dir {
            Some(dir) => {
                let app = app_dir(dir.as_str());
                Ok(join_path(app.as_str(), USER_SCRIPTS_DIR))
            },
            None => Err(no_data_dir()),
        }
    }
}

/// Chooses the scripts directory from what the probe found. The user's data
/// directory is asked for only where neither fixed directory exists, and only
/// then can the choice fail.
pub fn get_scripts_dir(probe: ScriptsProbe) -> (r: Result<String, BedrockError>)
    ensures
        exists|data_dir: Option<Seq<char>>|
            text_outcome_view(r) == #[trigger] scripts_dir_spec(probe, data_dir),
        probe.bundled_exists ==> text_outcome_view(r) == Ok::<Seq<char>, ErrorView>("scripts"@),
        !probe.bundled_exists && probe.dev_exists ==> text_outcome_view(r) == Ok::<
            Seq<char>,
            ErrorView,
        >("../../../ß¬α¿»Γδ/scripts"@),
{
    let data_dir = if probe.bundled_exists || probe.dev_exists {
        None
    } else {
        user_data_dir()
    };
    let r = scripts_dir_from(probe, data_dir);
    assert(text_outcome_view(r) == scripts_dir_spec(probe, optional_text(data_dir)));
    r
}

/// Path of a script inside the scripts directory.
pub fn get_script_path(scripts_dir: &str, script_name: &str) -> (r: String)
    ensures
        r@ == joined(scripts_dir@, script_name@),
{
    join_path(scripts_dir, script_name)
}

/// How to run one helper script.
#[derive(Debug, PartialEq, Eq)]
pub struct ScriptInvocation {
    /// The program to start.
    pub program: String,
    /// Path of the script, the program's only argument.
    pub script_path: String,
    /// Directory in which the program runs.
    pub working_dir: String,
    /// The line to write to the standard input, its newline included. `None`
    /// where the script reads no input.
    pub stdin_line: Option<String>,
}

/// A `ScriptInvocation` as plain mathematical values.
pub struct InvocationView {
    pub program: Seq<char>,
    pub script_path: Seq<char>,
    pub working_dir: Seq<char>,
    pub stdin_line: Option<Seq<char>>,
}

impl View for ScriptInvocation {
    type V = InvocationView;

    open spec fn view(&self) -> InvocationView {
        InvocationView {
            program: self.program@,
            script_path: self.script_path@,
            working_dir: self.working_dir@,
            stdin_line: optional_text(self.stdin_line),
        }
    }
}

/// The line that hands `input` to a script: the input and a newline. An
/// empty input gives an empty line, which asks the script for its default.
pub open spec fn stdin_line_spec(input: Seq<char>) -> Seq<char> {
    input + "\n"@
}

/// The invocation of `script` from `scripts_dir` with an optional input.
pub open spec fn invocation_spec(script: Script, scripts_dir: Seq<char>, input: Option<Seq<char>>)
    -> InvocationView {
    InvocationView {
        program: "node"@,
        script_path: joined(scripts_dir, script.file_name_spec()),
        working_dir: scripts_dir,
        stdin_line: match input {
            Some(text) => Some(stdin_line_spec(text)),
            None => None,
        },
    }
}

/// The line that hands `input` to a script.
pub fn stdin_line(input: &str) -> (r: String)
    ensures
        r@ == stdin_line_spec(input@),
{
    join2(input, "\n")
}

/// Says how to run `script` from `scripts_dir`, with `input` as its one line
/// of input if there is any.
pub fn invocation(script: Script, scripts_dir: &str, input: Option<&str>) -> (r: ScriptInvocation)
    ensures
        r@ == invocation_spec(
            script,
            scripts_dir@,
            match input {
                Some(text) => Some(text@),
                None => None,
            },
        ),
{
    let line = match input {
        Some(text) => Some(stdin_line(text)),
        None => None,
    };
    ScriptInvocation {
        program: String::from_str(SCRIPT_RUNNER),
        script_path: get_script_path(scripts_dir, script.file_name()),
        working_dir: String::from_str(scripts_dir),
        stdin_line: line,
    }
}

/// How the run of a helper script ended.
#[derive(Debug, PartialEq, Eq)]
pub enum ScriptOutcome {
    /// The process could not be started; the text says why.
    NotStarted(String),
    /// The input line could not be written; the text says why.
    InputFailed(String),
    /// The exit of the process could not be awaited; the text says why.
    WaitFailed(String),
    /// The process ran and ended.
    Exited {
        /// Whether the exit status reports success.
        success: bool,
        /// What the process wrote to its standard output.
        stdout: Vec<u8>,
        /// What the process wrote to its standard error.
        stderr: Vec<u8>,
    },
}

/// A `ScriptOutcome` as plain mathematical values.
pub enum OutcomeView {
    NotStarted(Seq<char>),
    InputFailed(Seq<char>),
    WaitFailed(Seq<char>),
    Exited { success: bool, stdout: Seq<u8>, stderr: Seq<u8> },
}

impl View for ScriptOutcome {
    type V = OutcomeView;

    open spec fn view(&self) -> OutcomeView {
        match self {
            ScriptOutcome::NotStarted(cause) => OutcomeView::NotStarted(cause@),
            ScriptOutcome::InputFailed(cause) => OutcomeView::InputFailed(cause@),
            ScriptOutcome::WaitFailed(cause) => OutcomeView::WaitFailed(cause@),
            ScriptOutcome::Exited { success, stdout, stderr } => OutcomeView::Exited {
                success: *success,
                stdout: stdout@,
                stderr: stderr@,
            },
        }
    }
}

/// What the way a script ended means: success exactly for a process that
/// ran and reported success, and else a script failure whose text ends in the
/// cause, or in what the process wrote to its standard error.
pub open spec fn script_result_spec(script: Script, outcome: OutcomeView) -> Result<(), ErrorView> {
    match outcome {
        OutcomeView::NotStarted(cause) => Err(
            ErrorView::Script(script.not_started_prefix() + cause),
        ),
        OutcomeView::InputFailed(cause) => Err(
            ErrorView::Script(script.input_failed_prefix() + cause),
        ),
        OutcomeView::WaitFailed(cause) => Err(
            ErrorView::Script(script.wait_failed_prefix() + cause),
        ),
        OutcomeView::Exited { success, stdout, stderr } => if success {
            Ok(())
        } else {
            Err(ErrorView::Script(script.failed_prefix() + utf8_lossy_of(stderr)))
        },
    }
}

/// Judges the way a script ended. Where the script failed and what it wrote
/// to its standard error is valid UTF-8, the failure text ends in exactly
/// that text.
pub fn script_result(script: Script, outcome: &ScriptOutcome) -> (r: Result<(), BedrockError>)
    ensures
        outcome_view(r) == script_result_spec(script, outcome@),
        outcome@ is Exited && !outcome@->success && valid_utf8(outcome@->stderr) ==> outcome_view(r)
            == Err::<(), ErrorView>(
            ErrorView::Script(script.failed_prefix() + decode_utf8(outcome@->stderr)),
        ),
{
    match outcome {
        ScriptOutcome::NotStarted(cause) => Err(
            BedrockError::Script(join2(script.not_started_text(), cause.as_str())),
        ),
        ScriptOutcome::InputFailed(cause) => Err(
            BedrockError::Script(join2(script.input_failed_text(), cause.as_str())),
        ),
        ScriptOutcome::WaitFailed(cause) => Err(
            BedrockError::Script(join2(script.wait_failed_text(), cause.as_str())),
        ),
        ScriptOutcome::Exited { success, stdout, stderr } => {
            if *success {
                Ok(())
            } else {
                let text = captured_text(stderr);
                Err(BedrockError::Script(join2(script.failed_text(), text.as_str())))
            }
        },
    }
}

/// A script that ends with a failure status gives a script failure, and the
/// text of the failure ends with what the script wrote to its standard
/// error, unchanged.
pub proof fn law_failed_script_reports_stderr(script: Script, stdout: Seq<u8>, stderr: Seq<u8>)
    ensures
        script_result_spec(script, OutcomeView::Exited { success: false, stdout, stderr })
            matches Err(ErrorView::Script(text)) && text.len() >= utf8_lossy_of(stderr).len()
            && text.skip(text.len() - utf8_lossy_of(stderr).len()) == utf8_lossy_of(stderr),
{
    let written = utf8_lossy_of(stderr);
    let text = script.failed_prefix() + written;
    assert(text.skip(text.len() - written.len()) =~= written);
}

/// A script succeeds exactly where its process ran and reported success.
pub proof fn law_script_success(script: Script, outcome: OutcomeView)
    ensures
        script_result_spec(script, outcome) is Ok <==> (outcome matches OutcomeView::Exited {
            success,
            ..
        } && success),
        script_result_spec(script, outcome) matches Err(e) ==> e is Script,
{
}

} // verus!
