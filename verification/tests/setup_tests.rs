use agent_bridge::config::{McpServerConfig, ServerConfig};
use agent_bridge::setup::{
    install_plan, is_expected, setup_mcp_server, CommandOutcome, InstallPlan, Invocation,
    SetupAction, SetupError, SetupEvent, SetupState,
};

fn descriptor() -> McpServerConfig {
    McpServerConfig {
        server_type: "github".to_string(),
        repository: Some("owner/repo".to_string()),
        language: "node".to_string(),
        entrypoint: "dist/index.js".to_string(),
        description: Some("reader".to_string()),
        install_command: Some("npm install && npm run build".to_string()),
    }
}

fn strings(items: &[&str]) -> Vec<String> {
    items.iter().map(|s| s.to_string()).collect()
}

fn ok_run() -> CommandOutcome {
    CommandOutcome::Finished { success: true, stdout: "v20.0.0\n".to_string(), stderr: String::new() }
}

fn bad_run() -> CommandOutcome {
    CommandOutcome::Finished { success: false, stdout: "out".to_string(), stderr: "err".to_string() }
}

fn step(state: SetupState, event: SetupEvent, d: &McpServerConfig) -> (SetupState, SetupAction) {
    assert!(is_expected(state, &event));
    setup_mcp_server(state, event, "reader", d, &ServerConfig::default())
}

const DIR: &str = "/app/mcp-servers/reader";
const ENTRY: &str = "/app/mcp-servers/reader/dist/index.js";

#[test]
fn conjunction_runs_through_the_shell() {
    assert_eq!(
        install_plan("npm install && npm run build"),
        InstallPlan::Shell("npm install && npm run build".to_string())
    );
    assert_eq!(install_plan("make || true"), InstallPlan::Shell("make || true".to_string()));
}

#[test]
fn plain_command_runs_directly() {
    assert_eq!(
        install_plan("npm install"),
        InstallPlan::Direct { program: "npm".to_string(), args: strings(&["install"]) }
    );
    assert_eq!(
        install_plan("  pip   install -r\trequirements.txt "),
        InstallPlan::Direct {
            program: "pip".to_string(),
            args: strings(&["install", "-r", "requirements.txt"]),
        }
    );
    assert_eq!(
        install_plan("make"),
        InstallPlan::Direct { program: "make".to_string(), args: Vec::new() }
    );
    assert_eq!(
        install_plan("a & b | c"),
        InstallPlan::Direct { program: "a".to_string(), args: strings(&["&", "b", "|", "c"]) }
    );
}

#[test]
fn blank_command_has_no_plan() {
    assert_eq!(install_plan(""), InstallPlan::Empty);
    assert_eq!(install_plan(" \t\n"), InstallPlan::Empty);
}

#[test]
fn fresh_install_walks_every_stage() {
    let d = descriptor();
    let (s, a) = step(SetupState::Start, SetupEvent::Begin, &d);
    assert_eq!(s, SetupState::CheckingDirectory);
    assert_eq!(a, SetupAction::CheckPath(DIR.to_string()));

    let (s, a) = step(s, SetupEvent::PathChecked(false), &d);
    assert_eq!(s, SetupState::Fetching);
    assert_eq!(
        a,
        SetupAction::Run(Invocation {
            program: "git".to_string(),
            args: strings(&["clone", "https://github.com/owner/repo", DIR]),
            working_dir: None,
        })
    );

    let (s, a) = step(s, SetupEvent::CommandFinished(ok_run()), &d);
    assert_eq!(s, SetupState::CheckingEntrypoint);
    assert_eq!(a, SetupAction::CheckPath(ENTRY.to_string()));

    let (s, a) = step(s, SetupEvent::PathChecked(false), &d);
    assert_eq!(s, SetupState::Installing);
    assert_eq!(
        a,
        SetupAction::Run(Invocation {
            program: "sh".to_string(),
            args: strings(&["-c", "npm install && npm run build"]),
            working_dir: Some(DIR.to_string()),
        })
    );

    let (s, a) = step(s, SetupEvent::CommandFinished(ok_run()), &d);
    assert_eq!(s, SetupState::Verifying);
    assert_eq!(a, SetupAction::CheckPath(ENTRY.to_string()));

    let (s, a) = step(s, SetupEvent::PathChecked(true), &d);
    assert_eq!(s, SetupState::ProbingRuntime);
    assert_eq!(
        a,
        SetupAction::Run(Invocation {
            program: "node".to_string(),
            args: strings(&["--version"]),
            working_dir: None,
        })
    );

    let (s, a) = step(s, SetupEvent::CommandFinished(ok_run()), &d);
    assert_eq!(s, SetupState::Finished);
    assert_eq!(a, SetupAction::Done(Ok(())));
    assert!(!is_expected(s, &SetupEvent::Begin));
    assert!(!is_expected(s, &SetupEvent::PathChecked(true)));
}

#[test]
fn installed_agent_is_only_verified_again() {
    let d = McpServerConfig { language: "python".to_string(), ..descriptor() };
    let (s, _) = step(SetupState::Start, SetupEvent::Begin, &d);
    let (s, a) = step(s, SetupEvent::PathChecked(true), &d);
    assert_eq!(s, SetupState::CheckingEntrypoint);
    assert_eq!(a, SetupAction::CheckPath(ENTRY.to_string()));
    let (s, a) = step(s, SetupEvent::PathChecked(true), &d);
    assert_eq!(s, SetupState::Verifying);
    assert_eq!(a, SetupAction::CheckPath(ENTRY.to_string()));
    let (s, a) = step(s, SetupEvent::PathChecked(true), &d);
    assert_eq!(s, SetupState::Finished);
    assert_eq!(a, SetupAction::Done(Ok(())));
}

#[test]
fn fetched_source_that_holds_the_entrypoint_is_not_installed() {
    let d = McpServerConfig {
        language: "python".to_string(),
        install_command: Some("npm install".to_string()),
        ..descriptor()
    };
    let (s, _) = step(SetupState::Start, SetupEvent::Begin, &d);
    let (s, _) = step(s, SetupEvent::PathChecked(false), &d);
    assert_eq!(s, SetupState::Fetching);
    let (s, a) = step(s, SetupEvent::CommandFinished(ok_run()), &d);
    assert_eq!(s, SetupState::CheckingEntrypoint);
    assert_eq!(a, SetupAction::CheckPath(ENTRY.to_string()));
    let (s, a) = step(s, SetupEvent::PathChecked(true), &d);
    assert_eq!(s, SetupState::Verifying);
    assert_eq!(a, SetupAction::CheckPath(ENTRY.to_string()));
    let (s, a) = step(s, SetupEvent::PathChecked(true), &d);
    assert_eq!(s, SetupState::Finished);
    assert_eq!(a, SetupAction::Done(Ok(())));
}

#[test]
fn absent_entrypoint_is_installed_directly_for_a_plain_command() {
    let d = McpServerConfig { install_command: Some("npm install".to_string()), ..descriptor() };
    let (s, a) = step(SetupState::CheckingEntrypoint, SetupEvent::PathChecked(false), &d);
    assert_eq!(s, SetupState::Installing);
    assert_eq!(
        a,
        SetupAction::Run(Invocation {
            program: "npm".to_string(),
            args: strings(&["install"]),
            working_dir: Some(DIR.to_string()),
        })
    );
}

#[test]
fn missing_entrypoint_without_install_command_goes_on_to_verification() {
    let d = McpServerConfig { install_command: None, ..descriptor() };
    let (s, a) = step(
        SetupState::CheckingEntrypoint,
        SetupEvent::PathChecked(false),
        &d,
    );
    assert_eq!(s, SetupState::Verifying);
    assert_eq!(a, SetupAction::CheckPath(ENTRY.to_string()));
    let (s, a) = step(s, SetupEvent::PathChecked(false), &d);
    assert_eq!(s, SetupState::Finished);
    assert_eq!(a, SetupAction::Done(Err(SetupError::EntrypointMissing(ENTRY.to_string()))));
}

#[test]
fn unsupported_type_is_rejected_first() {
    let d = McpServerConfig { server_type: "gitlab".to_string(), repository: None, ..descriptor() };
    let (s, a) = step(SetupState::Start, SetupEvent::Begin, &d);
    assert_eq!(s, SetupState::Finished);
    assert_eq!(a, SetupAction::Done(Err(SetupError::UnsupportedType("gitlab".to_string()))));
}

#[test]
fn missing_repository_is_rejected() {
    let d = McpServerConfig { repository: None, ..descriptor() };
    let (s, a) = step(SetupState::Start, SetupEvent::Begin, &d);
    assert_eq!(s, SetupState::Finished);
    assert_eq!(a, SetupAction::Done(Err(SetupError::MissingSource)));
    let (s, a) = step(SetupState::CheckingDirectory, SetupEvent::PathChecked(false), &d);
    assert_eq!(s, SetupState::Finished);
    assert_eq!(a, SetupAction::Done(Err(SetupError::MissingSource)));
}

#[test]
fn failed_fetch_is_fatal() {
    let d = descriptor();
    let (s, a) = step(SetupState::Fetching, SetupEvent::CommandFinished(bad_run()), &d);
    assert_eq!(s, SetupState::Finished);
    assert_eq!(a, SetupAction::Done(Err(SetupError::FetchFailed(bad_run()))));
    let not_started = CommandOutcome::NotStarted("no git".to_string());
    let (_, a) = step(SetupState::Fetching, SetupEvent::CommandFinished(not_started.clone()), &d);
    assert_eq!(a, SetupAction::Done(Err(SetupError::FetchFailed(not_started))));
}

#[test]
fn failed_install_is_fatal() {
    let d = descriptor();
    let (s, a) = step(SetupState::Installing, SetupEvent::CommandFinished(bad_run()), &d);
    assert_eq!(s, SetupState::Finished);
    assert_eq!(a, SetupAction::Done(Err(SetupError::InstallFailed(bad_run()))));
}

#[test]
fn blank_install_command_is_fatal() {
    let d = McpServerConfig { install_command: Some("   ".to_string()), ..descriptor() };
    let (s, a) = step(
        SetupState::CheckingEntrypoint,
        SetupEvent::PathChecked(false),
        &d,
    );
    assert_eq!(s, SetupState::Finished);
    assert_eq!(a, SetupAction::Done(Err(SetupError::EmptyInstallCommand)));
}

#[test]
fn failed_runtime_probe_is_fatal() {
    let d = descriptor();
    let (s, a) = step(SetupState::ProbingRuntime, SetupEvent::CommandFinished(bad_run()), &d);
    assert_eq!(s, SetupState::Finished);
    assert_eq!(a, SetupAction::Done(Err(SetupError::RuntimeUnavailable(bad_run()))));
    let gone = CommandOutcome::NotStarted("no node".to_string());
    let (_, a) = step(SetupState::ProbingRuntime, SetupEvent::CommandFinished(gone.clone()), &d);
    assert_eq!(a, SetupAction::Done(Err(SetupError::RuntimeUnavailable(gone))));
}

#[test]
fn each_state_expects_its_own_event() {
    let path = SetupEvent::PathChecked(true);
    let run = SetupEvent::CommandFinished(ok_run());
    assert!(is_expected(SetupState::Start, &SetupEvent::Begin));
    assert!(!is_expected(SetupState::Start, &path));
    assert!(is_expected(SetupState::CheckingDirectory, &path));
    assert!(!is_expected(SetupState::CheckingDirectory, &run));
    assert!(is_expected(SetupState::Fetching, &run));
    assert!(!is_expected(SetupState::Fetching, &path));
    assert!(is_expected(SetupState::CheckingEntrypoint, &path));
    assert!(is_expected(SetupState::Installing, &run));
    assert!(is_expected(SetupState::Verifying, &path));
    assert!(is_expected(SetupState::ProbingRuntime, &run));
    assert!(!is_expected(SetupState::ProbingRuntime, &SetupEvent::Begin));
    assert!(ok_run().is_success());
    assert!(!bad_run().is_success());
    assert!(!CommandOutcome::NotStarted(String::new()).is_success());
}
