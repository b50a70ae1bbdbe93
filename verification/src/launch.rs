//! Launching the agent process and watching its error stream.
//!
//! As with bootstrap, the decisions are a state machine and the driver
//! does the work: it spawns, sleeps, probes and takes the streams.

use vstd::prelude::*;
use crate::config::{
    BuildError,
    McpServerConfig,
    ServerConfig,
    build_command,
    entrypoint_path,
    has_interpreter,
};
use crate::session::{LivenessProbe, McpServerProcess, SessionState};
use crate::setup::{Invocation, invokes};
use crate::text::{texts, trim, trimmed};

verus! {

/// One of the three standard streams of the agent process.
#[derive(Clone, Copy, Debug, PartialEq, Eq, Structural)]
pub enum StreamKind {
    Stdin,
    Stdout,
    Stderr,
}

/// What the look at the process after the grace interval found.
#[derive(Clone, Debug, PartialEq, Eq)]
pub enum ExitProbe {
    /// The process has exited already, with this status.
    Exited(String),
    /// The process is running.
    Running,
    /// The status could not be determined.
    CheckFailed(String),
    /// There is no process handle to ask.
    HandleAbsent,
}

/// Why the launch failed.
#[derive(Clone, Debug, PartialEq, Eq)]
pub enum StartError {
    /// No command line could be built for the descriptor.
    CommandBuildFailed(BuildError),
    /// The process could not be spawned.
    SpawnFailed(String),
    /// The process exited within the grace interval, with this status.
    ImmediateExit(String),
    /// The status of the process could not be determined.
    StatusCheckFailed(String),
    /// The process handle was not there.
    HandleUnavailable,
    /// The process came without this stream.
    StreamUnavailable(StreamKind),
}

/// Where the launch stands. From the spawn on it carries the process
/// identifier.
#[derive(Clone, Copy, Debug, PartialEq, Eq)]
pub enum StartState {
    Start,
    /// Asked for the process to be spawned.
    Spawning,
    /// Asked for the grace interval to be waited out.
    Settling { process_id: Option<u32> },
    /// Asked whether the process has exited.
    Probing { process_id: Option<u32> },
    /// Asked for the three streams.
    ClaimingStreams { process_id: Option<u32> },
    /// Asked for the error stream to be drained and the initialisation
    /// wait to be sat out.
    Initializing { process_id: Option<u32> },
    /// The launch has ended, well or badly.
    Finished,
}

/// What the driver reports to a step of the launch.
#[derive(Debug, PartialEq, Eq)]
pub enum StartEvent {
    /// The launch is to start.
    Begin,
    /// The spawn gave a process with this identifier, or failed.
    Spawned(Result<Option<u32>, String>),
    /// The wait asked for is over; the clock now reads `now`.
    Waited { now: u64 },
    /// The look at the process found this.
    Probed(ExitProbe),
    /// Which of the three streams could be taken.
    StreamsClaimed { stdin: bool, stdout: bool, stderr: bool },
}

/// What a step of the launch asks the driver to do next.
#[derive(Debug, PartialEq, Eq)]
pub enum StartAction {
    /// Spawn this command with all three streams piped, so that the
    /// process is killed when its handle is dropped.
    Spawn(Invocation),
    /// Wait for the grace interval, of this many milliseconds.
    Settle { millis: u64 },
    /// Look, without blocking, whether the process has exited.
    ProbeExit,
    /// Take the three streams out of the process handle.
    ClaimStreams,
    /// Start draining the error stream, then wait this many seconds.
    Initialize { wait_secs: u64 },
    /// The launch is over, with this result.
    Done(Result<McpServerProcess, StartError>),
}

/// What to do with one read from the error stream.
#[derive(Clone, Debug, PartialEq, Eq)]
pub enum DrainAction {
    /// Record this line, which is trimmed and not empty.
    Record(String),
    /// The line was blank: go on.
    Skip,
    /// The stream is closed: probe the process once and stop.
    Close,
}

/// Why the error stream closed.
#[derive(Clone, Copy, Debug, PartialEq, Eq, Structural)]
pub enum StreamClosure {
    /// The process has exited.
    ProcessExited,
    /// The process is still running and merely closed the stream.
    StillRunning,
    /// The process could not be asked.
    Unknown,
}

/// The grace interval between the spawn and the look at the process.
pub const SPAWN_GRACE_MILLIS: u64 = 100;

/// How far the launch has come: the number of the stage it stands at.
pub open spec fn start_progress(state: StartState) -> nat {
    match state {
        StartState::Start => 0,
        StartState::Spawning => 1,
        StartState::Settling { .. } => 2,
        StartState::Probing { .. } => 3,
        StartState::ClaimingStreams { .. } => 4,
        StartState::Initializing { .. } => 5,
        StartState::Finished => 6,
    }
}

/// Whether `event` is what a step in `state` waits for.
pub open spec fn start_expects(state: StartState, event: StartEvent) -> bool {
    match state {
        StartState::Start => event is Begin,
        StartState::Spawning => event is Spawned,
        StartState::Settling { .. } => event is Waited,
        StartState::Probing { .. } => event is Probed,
        StartState::ClaimingStreams { .. } => event is StreamsClaimed,
        StartState::Initializing { .. } => event is Waited,
        StartState::Finished => false,
    }
}

/// Whether `action` ends the launch with the error `e`.
pub open spec fn fails_with(next: StartState, action: StartAction, e: StartError) -> bool {
    next is Finished && action == StartAction::Done(Err(e))
}

/// The launch rules: whether a step taken in `state` on `event` moves to
/// `next` and asks for `action`.
pub open spec fn start_step(
    state: StartState,
    event: StartEvent,
    name: Seq<char>,
    config: McpServerConfig,
    server_config: ServerConfig,
    next: StartState,
    action: StartAction,
) -> bool {
    match (state, event) {
        (StartState::Start, StartEvent::Begin) => {
            if !texts(server_config.supported_languages@).contains(config.language@) {
                &&& next is Finished
                &&& action matches StartAction::Done(
                    Err(StartError::CommandBuildFailed(BuildError::UnsupportedLanguage(l))),
                )
                &&& l@ == config.language@
            } else if !has_interpreter(config.language@) {
                &&& next is Finished
                &&& action matches StartAction::Done(
                    Err(StartError::CommandBuildFailed(BuildError::LanguageNotImplemented(l))),
                )
                &&& l@ == config.language@
            } else {
                &&& next is Spawning
                &&& action matches StartAction::Spawn(inv)
                &&& invokes(
                    inv,
                    config.language@,
                    seq![
                        entrypoint_path(
                            server_config.mcp_servers_dir@,
                            name,
                            config.entrypoint@,
                        ),
                    ],
                    None,
                )
            }
        },
        (StartState::Spawning, StartEvent::Spawned(Ok(process_id))) => {
            &&& next == (StartState::Settling { process_id })
            &&& action == (StartAction::Settle { millis: SPAWN_GRACE_MILLIS })
        },
        (StartState::Spawning, StartEvent::Spawned(Err(cause))) => fails_with(
            next,
            action,
            StartError::SpawnFailed(cause),
        ),
        (StartState::Settling { process_id }, StartEvent::Waited { .. }) => {
            &&& next == (StartState::Probing { process_id })
            &&& action == StartAction::ProbeExit
        },
        (StartState::Probing { process_id }, StartEvent::Probed(probe)) => match probe {
            ExitProbe::Exited(status) => fails_with(
                next,
                action,
                StartError::ImmediateExit(status),
            ),
            ExitProbe::CheckFailed(cause) => fails_with(
                next,
                action,
                StartError::StatusCheckFailed(cause),
            ),
            ExitProbe::HandleAbsent => fails_with(next, action, StartError::HandleUnavailable),
            ExitProbe::Running => {
                &&& next == (StartState::ClaimingStreams { process_id })
                &&& action == StartAction::ClaimStreams
            },
        },
        (
            StartState::ClaimingStreams { process_id },
            StartEvent::StreamsClaimed { stdin, stdout, stderr },
        ) => {
            if !stdin {
                fails_with(next, action, StartError::StreamUnavailable(StreamKind::Stdin))
            } else if !stdout {
                fails_with(next, action, StartError::StreamUnavailable(StreamKind::Stdout))
            } else if !stderr {
                fails_with(next, action, StartError::StreamUnavailable(StreamKind::Stderr))
            } else {
                &&& next == (StartState::Initializing { process_id })
                &&& action == (StartAction::Initialize {
                    wait_secs: server_config.process_init_wait_secs,
                })
            }
        },
        (StartState::Initializing { process_id }, StartEvent::Waited { now }) => {
            &&& next is Finished
            &&& action matches StartAction::Done(Ok(session))
            &&& session@ == SessionState::fresh(
                process_id,
                now,
                server_config.response_timeout_secs,
            )
        },
        _ => false,
    }
}

/// Decides whether `event` is what a step in `state` waits for.
pub fn is_start_expected(state: StartState, event: &StartEvent) -> (b: bool)
    ensures
        b == start_expects(state, *event),
{
    match state {
        StartState::Start => matches!(event, StartEvent::Begin),
        StartState::Spawning => matches!(event, StartEvent::Spawned(_)),
        StartState::Settling { .. } => matches!(event, StartEvent::Waited { .. }),
        StartState::Probing { .. } => matches!(event, StartEvent::Probed(_)),
        StartState::ClaimingStreams { .. } => matches!(event, StartEvent::StreamsClaimed { .. }),
        StartState::Initializing { .. } => matches!(event, StartEvent::Waited { .. }),
        StartState::Finished => false,
    }
}

fn fail(e: StartError) -> (r: (StartState, StartAction))
    ensures
        fails_with(r.0, r.1, e),
{
    (StartState::Finished, StartAction::Done(Err(e)))
}

/// One step of the launch of the agent `server_name`, whose bootstrap has
/// succeeded: from where the launch stands and what the driver reports,
/// to where it stands next and what the driver is to do. The launch ends
/// with the session for the running process, or with the first failure.
pub fn start_mcp_server(
    state: StartState,
    event: StartEvent,
    server_name: &str,
    config: &McpServerConfig,
    server_config: &ServerConfig,
) -> (r: (StartState, StartAction))
    requires
        start_expects(state, event),
    ensures
        start_step(state, event, server_name@, *config, *server_config, r.0, r.1),
{
    match (state, event) {
        (StartState::Start, StartEvent::Begin) => {
            match build_command(server_name, config, server_config) {
                Ok((program, args)) => {
                    let inv = Invocation { program, args, working_dir: None };
                    (StartState::Spawning, StartAction::Spawn(inv))
                },
                Err(e) => (
                    StartState::Finished,
                    StartAction::Done(Err(StartError::CommandBuildFailed(e))),
                ),
            }
        },
        (StartState::Spawning, StartEvent::Spawned(Ok(process_id))) => (
            StartState::Settling { process_id },
            StartAction::Settle { millis: SPAWN_GRACE_MILLIS },
        ),
        (StartState::Spawning, StartEvent::Spawned(Err(cause))) => fail(
            StartError::SpawnFailed(cause),
        ),
        (StartState::Settling { process_id }, StartEvent::Waited { .. }) => (
            StartState::Probing { process_id },
            StartAction::ProbeExit,
        ),
        (StartState::Probing { process_id }, StartEvent::Probed(probe)) => match probe {
            ExitProbe::Exited(status) => fail(StartError::ImmediateExit(status)),
            ExitProbe::CheckFailed(cause) => fail(StartError::StatusCheckFailed(cause)),
            ExitProbe::HandleAbsent => fail(StartError::HandleUnavailable),
            ExitProbe::Running => (
                StartState::ClaimingStreams { process_id },
                StartAction::ClaimStreams,
            ),
        },
        (
            StartState::ClaimingStreams { process_id },
            StartEvent::StreamsClaimed { stdin, stdout, stderr },
        ) => {
            if !stdin {
                fail(StartError::StreamUnavailable(StreamKind::Stdin))
            } else if !stdout {
                fail(StartError::StreamUnavailable(StreamKind::Stdout))
            } else if !stderr {
                fail(StartError::StreamUnavailable(StreamKind::Stderr))
            } else {
                (
                    StartState::Initializing { process_id },
                    StartAction::Initialize { wait_secs: server_config.process_init_wait_secs },
                )
            }
        },
        (StartState::Initializing { process_id }, StartEvent::Waited { now }) => {
            let session = McpServerProcess::new(
                process_id,
                now,
                server_config.response_timeout_secs,
            );
            (StartState::Finished, StartAction::Done(Ok(session)))
        },
        _ => {
            proof {
                assert(false);
            }
            fail(StartError::HandleUnavailable)
        },
    }
}

/// Decides what to do with one read of `bytes_read` bytes, decoded as
/// `line`, from the error stream.
pub fn drain_step(bytes_read: usize, line: &str) -> (a: DrainAction)
    ensures
        match a {
            DrainAction::Close => bytes_read == 0,
            DrainAction::Skip => bytes_read > 0 && trim(line@).len() == 0,
            DrainAction::Record(text) => {
                &&& bytes_read > 0
                &&& text@ == trim(line@)
                &&& text@.len() > 0
            },
        },
{
    if bytes_read == 0 {
        return DrainAction::Close;
    }
    let text = trimmed(line);
    if text.as_str().unicode_len() == 0 {
        DrainAction::Skip
    } else {
        DrainAction::Record(text)
    }
}

/// Classifies why the error stream closed, from one look at the process.
pub fn classify_closure(probe: LivenessProbe) -> (c: StreamClosure)
    ensures
        c == match probe {
            LivenessProbe::Exited => StreamClosure::ProcessExited,
            LivenessProbe::Running => StreamClosure::StillRunning,
            _ => StreamClosure::Unknown,
        },
{
    match probe {
        LivenessProbe::Exited => StreamClosure::ProcessExited,
        LivenessProbe::Running => StreamClosure::StillRunning,
        _ => StreamClosure::Unknown,
    }
}

/// The launch hands out a session only after the process was found
/// running once the grace interval had passed and all three of its
/// streams were taken; the session is fresh and carries the identifier
/// that the spawn gave.
pub proof fn law_session_needs_running_process(
    state: StartState,
    event: StartEvent,
    name: Seq<char>,
    config: McpServerConfig,
    server_config: ServerConfig,
    next: StartState,
    action: StartAction,
)
    requires
        start_step(state, event, name, config, server_config, next, action),
    ensures
        start_expects(state, event),
        next is Finished <==> action is Done,
        action is Done && action->Done_0 is Ok ==> state is Initializing,
        next is Initializing ==> state is ClaimingStreams && event == (StartEvent::StreamsClaimed {
            stdin: true,
            stdout: true,
            stderr: true,
        }),
        next is ClaimingStreams ==> state is Probing && event == StartEvent::Probed(
            ExitProbe::Running,
        ),
        next is Probing ==> state is Settling,
        next is Settling ==> state is Spawning && event is Spawned && event->Spawned_0 is Ok,
        event matches StartEvent::Probed(ExitProbe::Exited(status)) ==> action
            == StartAction::Done(Err(StartError::ImmediateExit(status))),
{
}

/// Every step moves the launch to a later stage, so it ends after six
/// steps at most, and the process identifier that the spawn gave is the
/// one carried from stage to stage.
pub proof fn law_launch_advances(
    state: StartState,
    event: StartEvent,
    name: Seq<char>,
    config: McpServerConfig,
    server_config: ServerConfig,
    next: StartState,
    action: StartAction,
)
    requires
        start_step(state, event, name, config, server_config, next, action),
    ensures
        start_progress(state) < start_progress(next) <= 6,
        state matches StartState::Settling { process_id } ==> next == (StartState::Probing {
            process_id,
        }),
        state matches StartState::Probing { process_id } ==> next is Finished || next == (
        StartState::ClaimingStreams { process_id }),
        state matches StartState::ClaimingStreams { process_id } ==> next is Finished || next == (
        StartState::Initializing { process_id }),
{
}

} // verus!
