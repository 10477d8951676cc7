//! Starting the game for an instance.
//!
//! The record of the instance must load; what it holds is not used, for both
//! launch commands are fixed and name no instance. The primary command is
//! tried first, and the fallback once if the primary fails. An attempt fails
//! where its command cannot be started or ends with a failure status.

use vstd::prelude::*;
use vstd::string::*;
use crate::error::{BedrockError, ErrorView};
use crate::store::{load_bedrock_instance, load_result_spec, LoadOutcome, LoadOutcomeView};
use crate::text::{captured_text, join2, utf8_lossy_of};

verus! {

/// The two ways to start the game.
#[derive(Debug, Clone, Copy, PartialEq, Eq, Structural)]
pub enum LaunchCommand {
    /// Through the shell's handler for the game's address.
    Primary,
    /// Through the installed package.
    Fallback,
}

impl LaunchCommand {
    /// The program to start.
    pub open spec fn program_spec(self) -> Seq<char> {
        match self {
            LaunchCommand::Primary => "cmd"@,
            LaunchCommand::Fallback => "powershell"@,
        }
    }

    /// The arguments of the program, in their order.
    pub open spec fn arguments_spec(self) -> Seq<Seq<char>> {
        match self {
            LaunchCommand::Primary => seq!["/C"@, "start"@, "minecraft:"@],
            LaunchCommand::Fallback => seq![
                "-Command"@,
                "Get-AppxPackage -Name 'Microsoft.MinecraftUWP' | Invoke-Item"@,
            ],
        }
    }

    /// The program to start.
    pub fn program(&self) -> (r: &'static str)
        ensures
            r@ == self.program_spec(),
    {
        match self {
            LaunchCommand::Primary => "cmd",
            LaunchCommand::Fallback => "powershell",
        }
    }

    /// The arguments of the program, in their order.
    pub fn arguments(&self) -> (r: Vec<&'static str>)
        ensures
            r.deep_view() == self.arguments_spec(),
    {
        let mut r: Vec<&'static str> = Vec::new();
        match self {
            LaunchCommand::Primary => {
                r.push("/C");
                r.push("start");
                r.push("minecraft:");
            },
            LaunchCommand::Fallback => {
                r.push("-Command");
                r.push("Get-AppxPackage -Name 'Microsoft.MinecraftUWP' | Invoke-Item");
            },
        }
        assert(r.deep_view() =~= self.arguments_spec());
        r
    }
}

/// How one launch attempt ended.
#[derive(Debug, PartialEq, Eq)]
pub enum LaunchOutcome {
    /// The command could not be started; the text says why.
    NotStarted(String),
    /// The command ran and ended.
    Exited {
        /// Whether the exit status reports success.
        success: bool,
        /// What the command wrote to its standard output.
        stdout: Vec<u8>,
        /// What the command wrote to its standard error.
        stderr: Vec<u8>,
    },
}

/// A `LaunchOutcome` as plain mathematical values.
pub enum LaunchOutcomeView {
    NotStarted(Seq<char>),
    Exited { success: bool, stdout: Seq<u8>, stderr: Seq<u8> },
}

impl View for LaunchOutcome {
    type V = LaunchOutcomeView;

    open spec fn view(&self) -> LaunchOutcomeView {
        match self {
            LaunchOutcome::NotStarted(cause) => LaunchOutcomeView::NotStarted(cause@),
            LaunchOutcome::Exited { success, stdout, stderr } => LaunchOutcomeView::Exited {
                success: *success,
                stdout: stdout@,
                stderr: stderr@,
            },
        }
    }
}

impl LaunchOutcomeView {
    /// Whether the attempt started the game: the command ran and reported
    /// success.
    pub open spec fn succeeded(self) -> bool {
        self matches LaunchOutcomeView::Exited { success, .. } && success
    }

    /// Why a failed attempt failed: the cause where the command could not be
    /// started, and else what it wrote to its standard error.
    pub open spec fn cause(self) -> Seq<char> {
        match self {
            LaunchOutcomeView::NotStarted(cause) => cause,
            LaunchOutcomeView::Exited { stderr, .. } => utf8_lossy_of(stderr),
        }
    }
}

/// Where the start of the game stands.
#[derive(Debug, Clone, Copy, PartialEq, Eq, Structural)]
pub enum Launch {
    /// The record of the instance is being read.
    Loading,
    /// The primary command is at work.
    Primary,
    /// The fallback command is at work.
    Fallback,
    /// The work is over.
    Done,
}

/// How the action of the last step ended.
#[derive(Debug, PartialEq, Eq)]
pub enum LaunchEvent {
    /// The file of the instance was read.
    Loaded(LoadOutcome),
    /// The command was run.
    Attempted(LaunchOutcome),
}

/// A `LaunchEvent` as plain mathematical values.
pub enum LaunchEventView {
    Loaded(LoadOutcomeView),
    Attempted(LaunchOutcomeView),
}

impl View for LaunchEvent {
    type V = LaunchEventView;

    open spec fn view(&self) -> LaunchEventView {
        match self {
            LaunchEvent::Loaded(outcome) => LaunchEventView::Loaded(outcome@),
            LaunchEvent::Attempted(outcome) => LaunchEventView::Attempted(outcome@),
        }
    }
}

/// What the caller does next.
#[derive(Debug, PartialEq, Eq)]
pub enum LaunchAction {
    /// Run the command and answer with `Attempted`.
    Run(LaunchCommand),
    /// The work is over, with this result.
    Finish(Result<(), BedrockError>),
    /// The event did not fit the state; nothing is to be done.
    Nothing,
}

/// A `LaunchAction` as plain mathematical values.
pub enum LaunchActionView {
    Run(LaunchCommand),
    Finish(Result<(), ErrorView>),
    Nothing,
}

impl View for LaunchAction {
    type V = LaunchActionView;

    open spec fn view(&self) -> LaunchActionView {
        match self {
            LaunchAction::Run(command) => LaunchActionView::Run(*command),
            LaunchAction::Finish(result) => LaunchActionView::Finish(
                match result {
                    Ok(()) => Ok(()),
                    Err(e) => Err(e@),
                },
            ),
            LaunchAction::Nothing => LaunchActionView::Nothing,
        }
    }
}

/// One step: the state reached and the action to take.
#[derive(Debug, PartialEq, Eq)]
pub struct LaunchStep {
    pub state: Launch,
    pub action: LaunchAction,
}

/// A `LaunchStep` as plain mathematical values.
pub struct LaunchStepView {
    pub state: Launch,
    pub action: LaunchActionView,
}

impl View for LaunchStep {
    type V = LaunchStepView;

    open spec fn view(&self) -> LaunchStepView {
        LaunchStepView { state: self.state, action: self.action@ }
    }
}

/// The failure of a launch whose last attempt ended like `outcome`.
pub open spec fn launch_failure(outcome: LaunchOutcomeView) -> ErrorView {
    ErrorView::Launch("Failed to launch Bedrock Edition: "@ + outcome.cause())
}

/// The step taken from `state` on `event`. An event that does not fit the
/// state changes nothing.
pub open spec fn launch_step_spec(state: Launch, event: LaunchEventView) -> LaunchStepView {
    match (state, event) {
        (Launch::Loading, LaunchEventView::Loaded(outcome)) => match load_result_spec(outcome) {
            Ok(_) => LaunchStepView {
                state: Launch::Primary,
                action: LaunchActionView::Run(LaunchCommand::Primary),
            },
            Err(e) => LaunchStepView {
                state: Launch::Done,
                action: LaunchActionView::Finish(Err(e)),
            },
        },
        (Launch::Primary, LaunchEventView::Attempted(outcome)) => if outcome.succeeded() {
            LaunchStepView { state: Launch::Done, action: LaunchActionView::Finish(Ok(())) }
        } else {
            LaunchStepView {
                state: Launch::Fallback,
                action: LaunchActionView::Run(LaunchCommand::Fallback),
            }
        },
        (Launch::Fallback, LaunchEventView::Attempted(outcome)) => if outcome.succeeded() {
            LaunchStepView { state: Launch::Done, action: LaunchActionView::Finish(Ok(())) }
        } else {
            LaunchStepView {
                state: Launch::Done,
                action: LaunchActionView::Finish(Err(launch_failure(outcome))),
            }
        },
        _ => LaunchStepView { state, action: LaunchActionView::Nothing },
    }
}

/// Whether the attempt started the game.
pub fn attempt_succeeded(outcome: &LaunchOutcome) -> (b: bool)
    ensures
        b == outcome@.succeeded(),
{
    match outcome {
        LaunchOutcome::NotStarted(_) => false,
        LaunchOutcome::Exited { success, .. } => *success,
    }
}

/// The failure of a launch whose last attempt ended like `outcome`.
pub fn launch_error(outcome: &LaunchOutcome) -> (e: BedrockError)
    ensures
        e@ == launch_failure(outcome@),
{
    let text = match outcome {
        LaunchOutcome::NotStarted(cause) => {
            join2("Failed to launch Bedrock Edition: ", cause.as_str())
        },
        LaunchOutcome::Exited { stderr, .. } => {
            let written = captured_text(stderr);
            join2("Failed to launch Bedrock Edition: ", written.as_str())
        },
    };
    BedrockError::Launch(text)
}

/// Takes one step of starting the game for an instance. The caller starts
/// in `Launch::Loading` by reading the file of the instance.
pub fn bedrock_run_instance(state: Launch, event: LaunchEvent) -> (step: LaunchStep)
    ensures
        step@ == launch_step_spec(state, event@),
{
    match (state, event) {
        (Launch::Loading, LaunchEvent::Loaded(outcome)) => match load_bedrock_instance(outcome) {
            Ok(_) => LaunchStep {
                state: Launch::Primary,
                action: LaunchAction::Run(LaunchCommand::Primary),
            },
            Err(e) => LaunchStep { state: Launch::Done, action: LaunchAction::Finish(Err(e)) },
        },
        (Launch::Primary, LaunchEvent::Attempted(outcome)) => {
            if attempt_succeeded(&outcome) {
                LaunchStep { state: Launch::Done, action: LaunchAction::Finish(Ok(())) }
            } else {
                LaunchStep {
                    state: Launch::Fallback,
                    action: LaunchAction::Run(LaunchCommand::Fallback),
                }
            }
        },
        (Launch::Fallback, LaunchEvent::Attempted(outcome)) => {
            if attempt_succeeded(&outcome) {
                LaunchStep { state: Launch::Done, action: LaunchAction::Finish(Ok(())) }
            } else {
                LaunchStep {
                    state: Launch::Done,
                    action: LaunchAction::Finish(Err(launch_error(&outcome))),
                }
            }
        },
        (state, _) => LaunchStep { state, action: LaunchAction::Nothing },
    }
}

/// The game fails to start exactly where the record loads and both
/// attempts fail; the failure then tells of the fallback's end.
pub proof fn law_launch_fails_when_both_fail(
    loaded: LoadOutcomeView,
    primary: LaunchOutcomeView,
    fallback: LaunchOutcomeView,
)
    requires
        load_result_spec(loaded) is Ok,
    ensures
        launch_step_spec(Launch::Loading, LaunchEventView::Loaded(loaded)).state == Launch::Primary,
        primary.succeeded() ==> launch_step_spec(
            Launch::Primary,
            LaunchEventView::Attempted(primary),
        ).action == LaunchActionView::Finish(Ok(())),
        !primary.succeeded() ==> launch_step_spec(
            Launch::Primary,
            LaunchEventView::Attempted(primary),
        ) == (LaunchStepView {
            state: Launch::Fallback,
            action: LaunchActionView::Run(LaunchCommand::Fallback),
        }),
        launch_step_spec(Launch::Fallback, LaunchEventView::Attempted(fallback)).action == (
        if fallback.succeeded() {
            LaunchActionView::Finish(Ok(()))
        } else {
            LaunchActionView::Finish(Err(launch_failure(fallback)))
        }),
{
}

/// An instance whose record does not load is not started: the work ends
/// with the failure of the load, and no command is run.
pub proof fn law_launch_needs_record(loaded: LoadOutcomeView)
    requires
        load_result_spec(loaded) is Err,
    ensures
        launch_step_spec(Launch::Loading, LaunchEventView::Loaded(loaded)) == (LaunchStepView {
            state: Launch::Done,
            action: LaunchActionView::Finish(Err(load_result_spec(loaded)->Err_0)),
        }),
{
}

} // verus!
