use bedrock_launcher::creation::{
    advance_with, bedrock_create_instance, Creation, CreationAction, CreationEvent, CreationStep,
};
use bedrock_launcher::error::BedrockError;
use bedrock_launcher::launch::{
    attempt_succeeded, bedrock_run_instance, launch_error, Launch, LaunchAction, LaunchCommand,
    LaunchEvent, LaunchOutcome, LaunchStep,
};
use bedrock_launcher::lifecycle::{download_plan, install_invocation, DownloadOutcome, Progress};
use bedrock_launcher::records::BedrockInstance;
use bedrock_launcher::scripts::{ScriptOutcome, ScriptsProbe};
use bedrock_launcher::store::{save_plan, LoadOutcome, SaveOutcome};

fn exited(success: bool, stderr: &str) -> ScriptOutcome {
    ScriptOutcome::Exited { success, stdout: Vec::new(), stderr: stderr.as_bytes().to_vec() }
}

fn idle() -> Creation {
    Creation::Idle { name: "My World".to_string(), version: "1.20".to_string() }
}

fn bundled() -> ScriptsProbe {
    ScriptsProbe { bundled_exists: true, dev_exists: false }
}

fn data_dir() -> Option<String> {
    Some("/data".to_string())
}

fn record() -> BedrockInstance {
    BedrockInstance {
        name: "My World".to_string(),
        version: "1.20".to_string(),
        path: "bedrock_my_world".to_string(),
        installed: true,
        appx_path: Some("scripts/../downloads/1.20.Appx".to_string()),
    }
}

fn failed(notices: Vec<Progress>, e: BedrockError) -> CreationStep {
    CreationStep { state: Creation::Failed, notices, action: CreationAction::Finish(Err(e)) }
}

#[test]
fn creation_runs_through_its_steps() {
    let first = advance_with(idle(), CreationEvent::Started(bundled()), None);
    assert_eq!(
        first,
        CreationStep {
            state: Creation::Downloading {
                name: "My World".to_string(),
                version: "1.20".to_string(),
                scripts_dir: "scripts".to_string(),
            },
            notices: vec![Progress::Downloading],
            action: CreationAction::Download(download_plan("scripts", "1.20")),
        }
    );
    let second = advance_with(
        first.state,
        CreationEvent::Downloaded(DownloadOutcome::Script(exited(true, ""))),
        None,
    );
    assert_eq!(
        second,
        CreationStep {
            state: Creation::Installing {
                name: "My World".to_string(),
                version: "1.20".to_string(),
                appx_path: "scripts/../downloads/1.20.Appx".to_string(),
            },
            notices: vec![Progress::Downloaded, Progress::Installing],
            action: CreationAction::Install(install_invocation(
                "scripts",
                "scripts/../downloads/1.20.Appx"
            )),
        }
    );
    let third = advance_with(second.state, CreationEvent::Installed(exited(true, "")), data_dir());
    assert_eq!(
        third,
        CreationStep {
            state: Creation::Registering { record: record() },
            notices: vec![Progress::Installed],
            action: CreationAction::Save(save_plan(
                "/data/com.modrinth.app/bedrock_instances",
                &record()
            )),
        }
    );
    let last = advance_with(third.state, CreationEvent::Saved(SaveOutcome::Saved), None);
    assert_eq!(
        last,
        CreationStep {
            state: Creation::Registered,
            notices: vec![Progress::Created],
            action: CreationAction::Finish(Ok(record())),
        }
    );
}

#[test]
fn creation_uses_the_users_scripts_where_no_other_exist() {
    let probe = ScriptsProbe { bundled_exists: false, dev_exists: false };
    let step = advance_with(idle(), CreationEvent::Started(probe), data_dir());
    assert_eq!(
        step.action,
        CreationAction::Download(download_plan("/data/com.modrinth.app/scripts", "1.20"))
    );
}

#[test]
fn creation_fails_without_a_scripts_directory() {
    let probe = ScriptsProbe { bundled_exists: false, dev_exists: false };
    assert_eq!(
        advance_with(idle(), CreationEvent::Started(probe), None),
        failed(
            vec![Progress::Downloading],
            BedrockError::Io("Failed to get app data directory".to_string())
        )
    );
}

#[test]
fn creation_stops_at_a_failed_download() {
    let first = advance_with(idle(), CreationEvent::Started(bundled()), None);
    assert_eq!(
        advance_with(
            first.state,
            CreationEvent::Downloaded(DownloadOutcome::Script(exited(false, "no network"))),
            data_dir()
        ),
        failed(
            Vec::new(),
            BedrockError::Script("Download script failed: no network".to_string())
        )
    );
}

#[test]
fn creation_stops_where_the_downloads_directory_fails() {
    let first = advance_with(idle(), CreationEvent::Started(bundled()), None);
    assert_eq!(
        advance_with(
            first.state,
            CreationEvent::Downloaded(DownloadOutcome::DirectoryFailed("read-only".to_string())),
            data_dir()
        ),
        failed(
            Vec::new(),
            BedrockError::Io("Failed to create downloads directory: read-only".to_string())
        )
    );
}

#[test]
fn creation_stops_at_a_failed_install() {
    let state = Creation::Installing {
        name: "My World".to_string(),
        version: "1.20".to_string(),
        appx_path: "scripts/../downloads/1.20.Appx".to_string(),
    };
    assert_eq!(
        advance_with(state, CreationEvent::Installed(exited(false, "bad package")), data_dir()),
        failed(
            Vec::new(),
            BedrockError::Script("Install script failed: bad package".to_string())
        )
    );
}

#[test]
fn creation_fails_after_install_without_a_data_directory() {
    let state = Creation::Installing {
        name: "My World".to_string(),
        version: "1.20".to_string(),
        appx_path: "scripts/../downloads/1.20.Appx".to_string(),
    };
    assert_eq!(
        advance_with(state, CreationEvent::Installed(exited(true, "")), None),
        failed(
            vec![Progress::Installed],
            BedrockError::Io("Failed to get app data directory".to_string())
        )
    );
}

#[test]
fn creation_stops_at_a_failed_save() {
    let state = Creation::Registering { record: record() };
    assert_eq!(
        advance_with(
            state,
            CreationEvent::Saved(SaveOutcome::WriteFailed("disk full".to_string())),
            None
        ),
        failed(Vec::new(), BedrockError::Io("Failed to save instance: disk full".to_string()))
    );
}

#[test]
fn creation_passes_over_an_event_that_does_not_fit() {
    assert_eq!(
        advance_with(idle(), CreationEvent::Saved(SaveOutcome::Saved), data_dir()),
        CreationStep { state: idle(), notices: Vec::new(), action: CreationAction::Nothing }
    );
    assert_eq!(
        advance_with(Creation::Registered, CreationEvent::Started(bundled()), data_dir()),
        CreationStep {
            state: Creation::Registered,
            notices: Vec::new(),
            action: CreationAction::Nothing
        }
    );
    assert_eq!(
        advance_with(Creation::Failed, CreationEvent::Installed(exited(true, "")), data_dir()),
        CreationStep { state: Creation::Failed, notices: Vec::new(), action: CreationAction::Nothing }
    );
}

#[test]
fn creation_with_the_data_directory_of_this_user() {
    let first = bedrock_create_instance(idle(), CreationEvent::Started(bundled()));
    assert_eq!(first, advance_with(idle(), CreationEvent::Started(bundled()), None));
    let state = Creation::Registering { record: record() };
    assert_eq!(
        bedrock_create_instance(state, CreationEvent::Saved(SaveOutcome::Saved)),
        CreationStep {
            state: Creation::Registered,
            notices: vec![Progress::Created],
            action: CreationAction::Finish(Ok(record())),
        }
    );
}

fn attempt(success: bool, stderr: &str) -> LaunchOutcome {
    LaunchOutcome::Exited { success, stdout: Vec::new(), stderr: stderr.as_bytes().to_vec() }
}

#[test]
fn launch_commands_are_fixed() {
    assert_eq!(LaunchCommand::Primary.program(), "cmd");
    assert_eq!(LaunchCommand::Primary.arguments(), vec!["/C", "start", "minecraft:"]);
    assert_eq!(LaunchCommand::Fallback.program(), "powershell");
    assert_eq!(
        LaunchCommand::Fallback.arguments(),
        vec!["-Command", "Get-AppxPackage -Name 'Microsoft.MinecraftUWP' | Invoke-Item"]
    );
}

#[test]
fn launch_needs_the_record() {
    assert_eq!(
        bedrock_run_instance(
            Launch::Loading,
            LaunchEvent::Loaded(LoadOutcome::Unreadable("No such file".to_string()))
        ),
        LaunchStep {
            state: Launch::Done,
            action: LaunchAction::Finish(Err(BedrockError::NotFound(
                "Failed to load instance: No such file".to_string()
            ))),
        }
    );
    assert_eq!(
        bedrock_run_instance(
            Launch::Loading,
            LaunchEvent::Loaded(LoadOutcome::Malformed("eof".to_string()))
        ),
        LaunchStep {
            state: Launch::Done,
            action: LaunchAction::Finish(Err(BedrockError::Parse(
                "Failed to parse instance: eof".to_string()
            ))),
        }
    );
}

#[test]
fn launch_tries_the_primary_command_first() {
    assert_eq!(
        bedrock_run_instance(Launch::Loading, LaunchEvent::Loaded(LoadOutcome::Loaded(record()))),
        LaunchStep { state: Launch::Primary, action: LaunchAction::Run(LaunchCommand::Primary) }
    );
    assert_eq!(
        bedrock_run_instance(Launch::Primary, LaunchEvent::Attempted(attempt(true, ""))),
        LaunchStep { state: Launch::Done, action: LaunchAction::Finish(Ok(())) }
    );
}

#[test]
fn launch_falls_back_once() {
    let fallback =
        LaunchStep { state: Launch::Fallback, action: LaunchAction::Run(LaunchCommand::Fallback) };
    assert_eq!(
        bedrock_run_instance(Launch::Primary, LaunchEvent::Attempted(attempt(false, "x"))),
        fallback
    );
    assert_eq!(
        bedrock_run_instance(
            Launch::Primary,
            LaunchEvent::Attempted(LaunchOutcome::NotStarted("no cmd".to_string()))
        ),
        fallback
    );
    assert_eq!(
        bedrock_run_instance(Launch::Fallback, LaunchEvent::Attempted(attempt(true, ""))),
        LaunchStep { state: Launch::Done, action: LaunchAction::Finish(Ok(())) }
    );
}

#[test]
fn launch_fails_where_both_commands_fail() {
    assert_eq!(
        bedrock_run_instance(
            Launch::Fallback,
            LaunchEvent::Attempted(LaunchOutcome::NotStarted("program not found".to_string()))
        ),
        LaunchStep {
            state: Launch::Done,
            action: LaunchAction::Finish(Err(BedrockError::Launch(
                "Failed to launch Bedrock Edition: program not found".to_string()
            ))),
        }
    );
    assert_eq!(
        bedrock_run_instance(
            Launch::Fallback,
            LaunchEvent::Attempted(attempt(false, "package missing"))
        ),
        LaunchStep {
            state: Launch::Done,
            action: LaunchAction::Finish(Err(BedrockError::Launch(
                "Failed to launch Bedrock Edition: package missing".to_string()
            ))),
        }
    );
}

#[test]
fn launch_passes_over_an_event_that_does_not_fit() {
    assert_eq!(
        bedrock_run_instance(Launch::Done, LaunchEvent::Attempted(attempt(true, ""))),
        LaunchStep { state: Launch::Done, action: LaunchAction::Nothing }
    );
    assert_eq!(
        bedrock_run_instance(Launch::Loading, LaunchEvent::Attempted(attempt(true, ""))),
        LaunchStep { state: Launch::Loading, action: LaunchAction::Nothing }
    );
    assert_eq!(
        bedrock_run_instance(Launch::Primary, LaunchEvent::Loaded(LoadOutcome::Loaded(record()))),
        LaunchStep { state: Launch::Primary, action: LaunchAction::Nothing }
    );
}

#[test]
fn launch_attempts_are_judged_by_start_and_status() {
    assert!(attempt_succeeded(&attempt(true, "noise")));
    assert!(!attempt_succeeded(&attempt(false, "")));
    assert!(!attempt_succeeded(&LaunchOutcome::NotStarted("x".to_string())));
    assert_eq!(
        launch_error(&LaunchOutcome::Exited {
            success: false,
            stdout: Vec::new(),
            stderr: vec![0xff]
        }),
        BedrockError::Launch("Failed to launch Bedrock Edition: \u{fffd}".to_string())
    );
}
