//! The creation of an instance as a machine of states.
//!
//! `Idle -> Downloading -> Installing -> Registering -> Registered`, with
//! `Failed` reached from any state but the last. The caller starts with
//! `Creation::Idle` and the event `Started`, carries out the action of every
//! step, and answers with the event that tells how the action ended, until
//! the action is `Finish`.

use vstd::prelude::*;
use vstd::string::*;
use crate::error::{BedrockError, ErrorView};
use crate::lifecycle::{
    bedrock_download_version, bedrock_install_version, download_plan, download_plan_spec,
    download_result_spec, install_invocation, new_record, new_record_spec, DownloadOutcome,
    DownloadOutcomeView, DownloadPlan, DownloadPlanView, Progress,
};
use crate::paths::{
    artifact_path_spec, derived_identifier_spec, instances_dir_in, instances_dir_spec,
    user_data_dir,
};
use crate::records::{optional_text, BedrockInstance, InstanceView};
use crate::scripts::{
    invocation_spec, script_result_spec, scripts_dir_from, scripts_dir_spec, InvocationView,
    OutcomeView, Script, ScriptInvocation, ScriptOutcome, ScriptsProbe,
};
use crate::store::{
    save_bedrock_instance, save_plan, save_plan_spec, save_result_spec, SaveOutcome,
    SaveOutcomeView, SavePlan, SavePlanView,
};

verus! {

/// Where the creation of an instance stands.
#[derive(Debug, PartialEq, Eq)]
pub enum Creation {
    /// Nothing was done yet.
    Idle { name: String, version: String },
    /// The download script is at work.
    Downloading { name: String, version: String, scripts_dir: String },
    /// The install script is at work on the artifact at `appx_path`.
    Installing { name: String, version: String, appx_path: String },
    /// The record is being stored.
    Registering { record: BedrockInstance },
    /// The record is stored: the instance exists.
    Registered,
    /// A step failed, and the rest was given up.
    Failed,
}

/// A `Creation` as plain mathematical values.
pub enum CreationView {
    Idle { name: Seq<char>, version: Seq<char> },
    Downloading { name: Seq<char>, version: Seq<char>, scripts_dir: Seq<char> },
    Installing { name: Seq<char>, version: Seq<char>, appx_path: Seq<char> },
    Registering { record: InstanceView },
    Registered,
    Failed,
}

impl View for Creation {
    type V = CreationView;

    open spec fn view(&self) -> CreationView {
        match self {
            Creation::Idle { name, version } => CreationView::Idle {
                name: name@,
                version: version@,
            },
            Creation::Downloading { name, version, scripts_dir } => CreationView::Downloading {
                name: name@,
                version: version@,
                scripts_dir: scripts_dir@,
            },
            Creation::Installing { name, version, appx_path } => CreationView::Installing {
                name: name@,
                version: version@,
                appx_path: appx_path@,
            },
            Creation::Registering { record } => CreationView::Registering { record: record@ },
            Creation::Registered => CreationView::Registered,
            Creation::Failed => CreationView::Failed,
        }
    }
}

/// How the action of the last step ended.
#[derive(Debug, PartialEq, Eq)]
pub enum CreationEvent {
    /// The work begins; the probe says which scripts directories exist.
    Started(ScriptsProbe),
    /// The download plan was carried out.
    Downloaded(DownloadOutcome),
    /// The install script was run.
    Installed(ScriptOutcome),
    /// The save plan was carried out.
    Saved(SaveOutcome),
}

/// A `CreationEvent` as plain mathematical values.
pub enum CreationEventView {
    Started(ScriptsProbe),
    Downloaded(DownloadOutcomeView),
    Installed(OutcomeView),
    Saved(SaveOutcomeView),
}

impl View for CreationEvent {
    type V = CreationEventView;

    open spec fn view(&self) -> CreationEventView {
        match self {
            CreationEvent::Started(probe) => CreationEventView::Started(*probe),
            CreationEvent::Downloaded(outcome) => CreationEventView::Downloaded(outcome@),
            CreationEvent::Installed(outcome) => CreationEventView::Installed(outcome@),
            CreationEvent::Saved(outcome) => CreationEventView::Saved(outcome@),
        }
    }
}

/// What the caller does next.
#[derive(Debug, PartialEq, Eq)]
pub enum CreationAction {
    /// Carry out the plan and answer with `Downloaded`.
    Download(DownloadPlan),
    /// Run the script and answer with `Installed`.
    Install(ScriptInvocation),
    /// Carry out the plan and answer with `Saved`.
    Save(SavePlan),
    /// The work is over, with this result.
    Finish(Result<BedrockInstance, BedrockError>),
    /// The event did not fit the state; nothing is to be done.
    Nothing,
}

/// A `CreationAction` as plain mathematical values.
pub enum CreationActionView {
    Download(DownloadPlanView),
    Install(InvocationView),
    Save(SavePlanView),
    Finish(Result<InstanceView, ErrorView>),
    Nothing,
}

impl View for CreationAction {
    type V = CreationActionView;

    open spec fn view(&self) -> CreationActionView {
        match self {
            CreationAction::Download(plan) => CreationActionView::Download(plan@),
            CreationAction::Install(invocation) => CreationActionView::Install(invocation@),
            CreationAction::Save(plan) => CreationActionView::Save(plan@),
            CreationAction::Finish(result) => CreationActionView::Finish(
                match result {
                    Ok(record) => Ok(record@),
                    Err(e) => Err(e@),
                },
            ),
            CreationAction::Nothing => CreationActionView::Nothing,
        }
    }
}

/// One step: the state reached, the notices owed to the observer in their
/// order, and the action to take.
#[derive(Debug, PartialEq, Eq)]
pub struct CreationStep {
    pub state: Creation,
    pub notices: Vec<Progress>,
    pub action: CreationAction,
}

/// A `CreationStep` as plain mathematical values.
pub struct CreationStepView {
    pub state: CreationView,
    pub notices: Seq<Progress>,
    pub action: CreationActionView,
}

impl View for CreationStep {
    type V = CreationStepView;

    open spec fn view(&self) -> CreationStepView {
        CreationStepView { state: self.state@, notices: self.notices@, action: self.action@ }
    }
}

/// The step that gives the work up with failure `e`, after the notices that
/// were already owed.
pub open spec fn failed_step(notices: Seq<Progress>, e: ErrorView) -> CreationStepView {
    CreationStepView {
        state: CreationView::Failed,
        notices,
        action: CreationActionView::Finish(Err(e)),
    }
}

/// The step taken from `state` on `event`, where `data_dir` is the user's
/// data directory. An event that does not fit the state changes nothing.
pub open spec fn step_spec(state: CreationView, event: CreationEventView, data_dir: Option<Seq<char>>)
    -> CreationStepView {
    match (state, event) {
        (CreationView::Idle { name, version }, CreationEventView::Started(probe)) => {
            match scripts_dir_spec(probe, data_dir) {
                Ok(scripts_dir) => CreationStepView {
                    state: CreationView::Downloading { name, version, scripts_dir },
                    notices: seq![Progress::Downloading],
                    action: CreationActionView::Download(download_plan_spec(scripts_dir, version)),
                },
                Err(e) => failed_step(seq![Progress::Downloading], e),
            }
        },
        (
            CreationView::Downloading { name, version, scripts_dir },
            CreationEventView::Downloaded(outcome),
        ) => {
            match download_result_spec(scripts_dir, version, outcome) {
                Ok(appx_path) => CreationStepView {
                    state: CreationView::Installing { name, version, appx_path },
                    notices: seq![Progress::Downloaded, Progress::Installing],
                    action: CreationActionView::Install(
                        invocation_spec(Script::Install, scripts_dir, Some(appx_path)),
                    ),
                },
                Err(e) => failed_step(Seq::empty(), e),
            }
        },
        (
            CreationView::Installing { name, version, appx_path },
            CreationEventView::Installed(outcome),
        ) => {
            match script_result_spec(Script::Install, outcome) {
                Ok(()) => match instances_dir_spec(data_dir) {
                    Ok(instances_dir) => {
                        let record = new_record_spec(name, version, appx_path);
                        CreationStepView {
                            state: CreationView::Registering { record },
                            notices: seq![Progress::Installed],
                            action: CreationActionView::Save(
                                save_plan_spec(instances_dir, record),
                            ),
                        }
                    },
                    Err(e) => failed_step(seq![Progress::Installed], e),
                },
                Err(e) => failed_step(Seq::empty(), e),
            }
        },
        (CreationView::Registering { record }, CreationEventView::Saved(outcome)) => {
            match save_result_spec(outcome) {
                Ok(()) => CreationStepView {
                    state: CreationView::Registered,
                    notices: seq![Progress::Created],
                    action: CreationActionView::Finish(Ok(record)),
                },
                Err(e) => failed_step(Seq::empty(), e),
            }
        },
        _ => CreationStepView {
            state,
            notices: Seq::empty(),
            action: CreationActionView::Nothing,
        },
    }
}

fn give_up(notices: Vec<Progress>, e: BedrockError) -> (step: CreationStep)
    ensures
        step@ == failed_step(notices@, e@),
{
    CreationStep { state: Creation::Failed, notices, action: CreationAction::Finish(Err(e)) }
}

fn no_notices() -> (notices: Vec<Progress>)
    ensures
        notices@ == Seq::<Progress>::empty(),
{
    Vec::new()
}

fn one_notice(notice: Progress) -> (notices: Vec<Progress>)
    ensures
        notices@ == seq![notice],
{
    let mut notices: Vec<Progress> = Vec::new();
    notices.push(notice);
    notices
}

/// Takes one step of the creation, given the user's data directory.
pub fn advance_with(state: Creation, event: CreationEvent, data_dir: Option<String>) -> (step:
    CreationStep)
    ensures
        step@ == step_spec(state@, event@, optional_text(data_dir)),
{
    match (state, event) {
        (Creation::Idle { name, version }, CreationEvent::Started(probe)) => {
            let notices = one_notice(Progress::Downloading);
            match scripts_dir_from(probe, data_dir) {
                Ok(scripts_dir) => {
                    let plan = download_plan(scripts_dir.as_str(), version.as_str());
                    CreationStep {
                        state: Creation::Downloading { name, version, scripts_dir },
                        notices,
                        action: CreationAction::Download(plan),
                    }
                },
                Err(e) => give_up(notices, e),
            }
        },
        (
            Creation::Downloading { name, version, scripts_dir },
            CreationEvent::Downloaded(outcome),
        ) => {
            let report = bedrock_download_version(
                scripts_dir.as_str(),
                version.as_str(),
                &outcome,
            );
            match report.result {
                Ok(appx_path) => {
                    let mut notices = one_notice(Progress::Downloaded);
                    notices.push(Progress::Installing);
                    assert(notices@ =~= seq![Progress::Downloaded, Progress::Installing]);
                    let run = install_invocation(scripts_dir.as_str(), appx_path.as_str());
                    CreationStep {
                        state: Creation::Installing { name, version, appx_path },
                        notices,
                        action: CreationAction::Install(run),
                    }
                },
                Err(e) => give_up(no_notices(), e),
            }
        },
        (Creation::Installing { name, version, appx_path }, CreationEvent::Installed(outcome)) => {
            let report = bedrock_install_version(&outcome);
            match report.result {
                Ok(()) => {
                    let notices = one_notice(Progress::Installed);
                    match instances_dir_in(data_dir) {
                        Ok(instances_dir) => {
                            let record = new_record(name, version, appx_path);
                            let plan = save_plan(instances_dir.as_str(), &record);
                            CreationStep {
                                state: Creation::Registering { record },
                                notices,
                                action: CreationAction::Save(plan),
                            }
                        },
                        Err(e) => give_up(notices, e),
                    }
                },
                Err(e) => give_up(no_notices(), e),
            }
        },
        (Creation::Registering { record }, CreationEvent::Saved(outcome)) => {
            match save_bedrock_instance(&outcome) {
                Ok(()) => CreationStep {
                    state: Creation::Registered,
                    notices: one_notice(Progress::Created),
                    action: CreationAction::Finish(Ok(record)),
                },
                Err(e) => give_up(no_notices(), e),
            }
        },
        (state, _) => CreationStep {
            state,
            notices: no_notices(),
            action: CreationAction::Nothing,
        },
    }
}

/// Takes one step of the creation of an instance. The user's data directory
/// is asked for where the step can need it: to find the scripts, and to find
/// the place of the record.
pub fn bedrock_create_instance(state: Creation, event: CreationEvent) -> (step: CreationStep)
    ensures
        exists|data_dir: Option<Seq<char>>| step@ == #[trigger] step_spec(state@, event@, data_dir),
{
    let data_dir = match state {
        Creation::Idle { .. } => user_data_dir(),
        Creation::Installing { .. } => user_data_dir(),
        _ => None,
    };
    let step = advance_with(state, event, data_dir);
    assert(step@ == step_spec(state@, event@, optional_text(data_dir)));
    step
}

impl CreationView {
    /// How far the work has come: every step leaves this as it is or raises
    /// it.
    pub open spec fn rank(self) -> nat {
        match self {
            CreationView::Idle { .. } => 0,
            CreationView::Downloading { .. } => 1,
            CreationView::Installing { .. } => 2,
            CreationView::Registering { .. } => 3,
            CreationView::Registered => 4,
            CreationView::Failed => 4,
        }
    }

    /// Whether the work is over.
    pub open spec fn is_final(self) -> bool {
        self is Registered || self is Failed
    }
}

/// The work never goes back, and it is over exactly when the action is
/// `Finish`: with a record in `Registered`, with a failure in `Failed`. A
/// failure asks for nothing more: no step is undone.
pub proof fn law_creation_moves_forward(
    state: CreationView,
    event: CreationEventView,
    data_dir: Option<Seq<char>>,
)
    ensures
        step_spec(state, event, data_dir).state.rank() >= state.rank(),
        step_spec(state, event, data_dir).action matches CreationActionView::Finish(Ok(_))
            <==> !state.is_final() && step_spec(state, event, data_dir).state is Registered,
        step_spec(state, event, data_dir).action matches CreationActionView::Finish(Err(_))
            <==> !state.is_final() && step_spec(state, event, data_dir).state is Failed,
        state.is_final() ==> step_spec(state, event, data_dir) == (CreationStepView {
            state,
            notices: Seq::empty(),
            action: CreationActionView::Nothing,
        }),
{
}

/// Where every step ends well, the work ends with the record of the
/// instance: it has the name and the version that were asked for, the
/// identifier derived from the name, and the path of the artifact, and it
/// counts as installed. The observer is owed five notices in this order.
pub proof fn law_creation_registers_record(
    name: Seq<char>,
    version: Seq<char>,
    probe: ScriptsProbe,
    data_dirs: Seq<Option<Seq<char>>>,
    downloaded: DownloadOutcomeView,
    installed: OutcomeView,
    saved: SaveOutcomeView,
)
    requires
        data_dirs.len() == 4,
        scripts_dir_spec(probe, data_dirs[0]) is Ok,
        download_result_spec(scripts_dir_spec(probe, data_dirs[0])->Ok_0, version, downloaded)
            is Ok,
        script_result_spec(Script::Install, installed) is Ok,
        instances_dir_spec(data_dirs[2]) is Ok,
        save_result_spec(saved) is Ok,
    ensures
        ({
            let first = step_spec(
                CreationView::Idle { name, version },
                CreationEventView::Started(probe),
                data_dirs[0],
            );
            let second = step_spec(
                first.state,
                CreationEventView::Downloaded(downloaded),
                data_dirs[1],
            );
            let third = step_spec(
                second.state,
                CreationEventView::Installed(installed),
                data_dirs[2],
            );
            let last = step_spec(third.state, CreationEventView::Saved(saved), data_dirs[3]);
            let scripts_dir = scripts_dir_spec(probe, data_dirs[0])->Ok_0;
            &&& last.state is Registered
            &&& last.action == CreationActionView::Finish(
                Ok(
                    InstanceView {
                        name,
                        version,
                        path: derived_identifier_spec(name),
                        installed: true,
                        appx_path: Some(artifact_path_spec(scripts_dir, version)),
                    },
                ),
            )
            &&& first.notices + second.notices + third.notices + last.notices == seq![
                Progress::Downloading,
                Progress::Downloaded,
                Progress::Installing,
                Progress::Installed,
                Progress::Created,
            ]
        }),
{
    let first = step_spec(
        CreationView::Idle { name, version },
        CreationEventView::Started(probe),
        data_dirs[0],
    );
    let second = step_spec(first.state, CreationEventView::Downloaded(downloaded), data_dirs[1]);
    let third = step_spec(second.state, CreationEventView::Installed(installed), data_dirs[2]);
    let last = step_spec(third.state, CreationEventView::Saved(saved), data_dirs[3]);
    assert(first.notices + second.notices + third.notices + last.notices =~= seq![
        Progress::Downloading,
        Progress::Downloaded,
        Progress::Installing,
        Progress::Installed,
        Progress::Created,
    ]);
}

} // verus!
