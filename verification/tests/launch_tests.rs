use agent_bridge::config::{BuildError, McpServerConfig, ServerConfig};
use agent_bridge::launch::{
    classify_closure, drain_step, is_start_expected, start_mcp_server, DrainAction,
    ExitProbe, StartAction, StartError, StartEvent, StartState, StreamClosure, StreamKind,
    SPAWN_GRACE_MILLIS,
};
use agent_bridge::session::{LivenessProbe, McpServerProcess};
use agent_bridge::setup::Invocation;

fn descriptor(language: &str) -> McpServerConfig {
    McpServerConfig {
        server_type: "github".to_string(),
        repository: Some("owner/repo".to_string()),
        language: language.to_string(),
        entrypoint: "server.py".to_string(),
        description: None,
        install_command: None,
    }
}

fn config() -> ServerConfig {
    ServerConfig { response_timeout_secs: 5, process_init_wait_secs: 3, ..ServerConfig::default() }
}

fn step(state: StartState, event: StartEvent) -> (StartState, StartAction) {
    assert!(is_start_expected(state, &event));
    start_mcp_server(state, event, "reader", &descriptor("python"), &config())
}

#[test]
fn launch_walks_every_stage() {
    let (s, a) = step(StartState::Start, StartEvent::Begin);
    assert_eq!(s, StartState::Spawning);
    assert_eq!(
        a,
        StartAction::Spawn(Invocation {
            program: "python".to_string(),
            args: vec!["/app/mcp-servers/reader/server.py".to_string()],
            working_dir: None,
        })
    );
    let (s, a) = step(s, StartEvent::Spawned(Ok(Some(4242))));
    assert_eq!(s, StartState::Settling { process_id: Some(4242) });
    assert_eq!(a, StartAction::Settle { millis: 100 });
    assert_eq!(SPAWN_GRACE_MILLIS, 100);
    let (s, a) = step(s, StartEvent::Waited { now: 100 });
    assert_eq!(s, StartState::Probing { process_id: Some(4242) });
    assert_eq!(a, StartAction::ProbeExit);
    let (s, a) = step(s, StartEvent::Probed(ExitProbe::Running));
    assert_eq!(s, StartState::ClaimingStreams { process_id: Some(4242) });
    assert_eq!(a, StartAction::ClaimStreams);
    let (s, a) = step(s, StartEvent::StreamsClaimed { stdin: true, stdout: true, stderr: true });
    assert_eq!(s, StartState::Initializing { process_id: Some(4242) });
    assert_eq!(a, StartAction::Initialize { wait_secs: 3 });
    let (s, a) = step(s, StartEvent::Waited { now: 3_100 });
    assert_eq!(s, StartState::Finished);
    assert_eq!(a, StartAction::Done(Ok(McpServerProcess::new(Some(4242), 3_100, 5))));
    assert!(!is_start_expected(s, &StartEvent::Begin));
}

#[test]
fn launch_fails_on_unsupported_language() {
    let (s, a) = start_mcp_server(
        StartState::Start,
        StartEvent::Begin,
        "reader",
        &descriptor("ruby"),
        &config(),
    );
    assert_eq!(s, StartState::Finished);
    assert_eq!(
        a,
        StartAction::Done(Err(StartError::CommandBuildFailed(BuildError::UnsupportedLanguage(
            "ruby".to_string()
        ))))
    );
    let with_ruby = ServerConfig { supported_languages: vec!["ruby".to_string()], ..config() };
    let (_, a) = start_mcp_server(
        StartState::Start,
        StartEvent::Begin,
        "reader",
        &descriptor("ruby"),
        &with_ruby,
    );
    assert_eq!(
        a,
        StartAction::Done(Err(StartError::CommandBuildFailed(
            BuildError::LanguageNotImplemented("ruby".to_string())
        )))
    );
}

#[test]
fn spawn_failure_is_fatal() {
    let (s, a) = step(StartState::Spawning, StartEvent::Spawned(Err("not found".to_string())));
    assert_eq!(s, StartState::Finished);
    assert_eq!(a, StartAction::Done(Err(StartError::SpawnFailed("not found".to_string()))));
}

#[test]
fn immediate_exit_is_fatal() {
    let state = StartState::Probing { process_id: Some(1) };
    let (s, a) = step(state, StartEvent::Probed(ExitProbe::Exited("exit status: 1".to_string())));
    assert_eq!(s, StartState::Finished);
    assert_eq!(a, StartAction::Done(Err(StartError::ImmediateExit("exit status: 1".to_string()))));
    let (_, a) = step(state, StartEvent::Probed(ExitProbe::CheckFailed("eperm".to_string())));
    assert_eq!(a, StartAction::Done(Err(StartError::StatusCheckFailed("eperm".to_string()))));
    let (_, a) = step(state, StartEvent::Probed(ExitProbe::HandleAbsent));
    assert_eq!(a, StartAction::Done(Err(StartError::HandleUnavailable)));
}

#[test]
fn each_missing_stream_is_fatal() {
    let state = StartState::ClaimingStreams { process_id: None };
    for (stdin, stdout, stderr, which) in [
        (false, true, true, StreamKind::Stdin),
        (false, false, false, StreamKind::Stdin),
        (true, false, true, StreamKind::Stdout),
        (true, false, false, StreamKind::Stdout),
        (true, true, false, StreamKind::Stderr),
    ] {
        let (s, a) = step(state, StartEvent::StreamsClaimed { stdin, stdout, stderr });
        assert_eq!(s, StartState::Finished);
        assert_eq!(a, StartAction::Done(Err(StartError::StreamUnavailable(which))));
    }
}

#[test]
fn process_without_identifier_still_starts() {
    let (s, _) = step(StartState::Spawning, StartEvent::Spawned(Ok(None)));
    assert_eq!(s, StartState::Settling { process_id: None });
    let (_, a) = step(StartState::Initializing { process_id: None }, StartEvent::Waited { now: 7 });
    assert_eq!(a, StartAction::Done(Ok(McpServerProcess::new(None, 7, 5))));
}

#[test]
fn drain_records_lines_and_stops_at_the_end() {
    assert_eq!(drain_step(0, ""), DrainAction::Close);
    assert_eq!(drain_step(0, "ignored"), DrainAction::Close);
    assert_eq!(drain_step(1, "\n"), DrainAction::Skip);
    assert_eq!(drain_step(4, "  \t\n"), DrainAction::Skip);
    assert_eq!(drain_step(9, " warning\n"), DrainAction::Record("warning".to_string()));
}

#[test]
fn closure_is_classified_by_the_probe() {
    assert_eq!(classify_closure(LivenessProbe::Exited), StreamClosure::ProcessExited);
    assert_eq!(classify_closure(LivenessProbe::Running), StreamClosure::StillRunning);
    assert_eq!(classify_closure(LivenessProbe::CheckFailed), StreamClosure::Unknown);
    assert_eq!(classify_closure(LivenessProbe::HandleAbsent), StreamClosure::Unknown);
    assert_eq!(classify_closure(LivenessProbe::LockBusy), StreamClosure::Unknown);
}
