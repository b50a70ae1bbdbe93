//! Bootstrap of an agent: making sure its source is present, its
//! entrypoint is installed and its runtime works.
//!
//! Bootstrap alternates decisions with work on the disk and with
//! commands. The decisions are here, as a state machine: the driver does
//! what a step asks for and reports the result to the next step.

use vstd::prelude::*;
use crate::config::{McpServerConfig, ServerConfig, entrypoint_path, join_path, server_dir};
use crate::text::{concat_str, contains, has_substring, list_contains, split_words, str_eq, texts, words};

verus! {

/// How a command that was run to completion ended.
#[derive(Clone, Debug, PartialEq, Eq)]
pub enum CommandOutcome {
    /// The command could not be started; the text says why.
    NotStarted(String),
    /// The command ran and exited.
    Finished { success: bool, stdout: String, stderr: String },
}

/// A command to run: a program, its arguments, and the directory to run
/// it in (`None`: the current one).
#[derive(Clone, Debug, PartialEq, Eq)]
pub struct Invocation {
    pub program: String,
    pub args: Vec<String>,
    pub working_dir: Option<String>,
}

/// How an install command is executed.
#[derive(Clone, Debug, PartialEq, Eq)]
pub enum InstallPlan {
    /// Through `sh -c`, the whole command as the script.
    Shell(String),
    /// Directly, split into words at whitespace.
    Direct { program: String, args: Vec<String> },
    /// The command holds no word at all.
    Empty,
}

/// Why bootstrap failed.
#[derive(Clone, Debug, PartialEq, Eq)]
pub enum SetupError {
    /// The descriptor's type is not a supported one.
    UnsupportedType(String),
    /// The descriptor names no source repository.
    MissingSource,
    /// Fetching the source failed.
    FetchFailed(CommandOutcome),
    /// The install command holds no word.
    EmptyInstallCommand,
    /// The install command failed.
    InstallFailed(CommandOutcome),
    /// The entrypoint, at the given path, is still absent.
    EntrypointMissing(String),
    /// The interpreter's probe failed.
    RuntimeUnavailable(CommandOutcome),
}

/// Where bootstrap stands.
#[derive(Clone, Copy, Debug, PartialEq, Eq, Structural)]
pub enum SetupState {
    /// Nothing has been done yet.
    Start,
    /// Asked whether the install directory exists.
    CheckingDirectory,
    /// Asked for the source to be fetched.
    Fetching,
    /// Asked whether the entrypoint exists, to tell whether installation
    /// is needed.
    CheckingEntrypoint,
    /// Asked for the install command to be run.
    Installing,
    /// Asked, for the last time, whether the entrypoint exists.
    Verifying,
    /// Asked for the interpreter to be probed.
    ProbingRuntime,
    /// Bootstrap has ended, well or badly.
    Finished,
}

/// What the driver reports to a step.
#[derive(Clone, Debug, PartialEq, Eq)]
pub enum SetupEvent {
    /// Bootstrap is to start.
    Begin,
    /// The path asked about exists, or does not.
    PathChecked(bool),
    /// The command asked for has ended.
    CommandFinished(CommandOutcome),
}

/// What a step asks the driver to do next.
#[derive(Debug, PartialEq, Eq)]
pub enum SetupAction {
    /// Report whether this path exists.
    CheckPath(String),
    /// Run this command to completion and report how it ended.
    Run(Invocation),
    /// Bootstrap is over, with this result.
    Done(Result<(), SetupError>),
}

/// Whether a command ended well: it ran and exited with success.
pub open spec fn succeeded(outcome: CommandOutcome) -> bool {
    outcome matches CommandOutcome::Finished { success, .. } && success
}

/// Whether an install command needs a shell: it holds `&&` or `||`.
pub open spec fn uses_shell(command: Seq<char>) -> bool {
    contains(command, "&&"@) || contains(command, "||"@)
}

/// Whether `plan` is how `command` is executed.
pub open spec fn is_install_plan(command: Seq<char>, plan: InstallPlan) -> bool {
    match plan {
        InstallPlan::Shell(script) => uses_shell(command) && script@ == command,
        InstallPlan::Direct { program, args } => {
            &&& !uses_shell(command)
            &&& words(command).len() > 0
            &&& program@ == words(command)[0]
            &&& texts(args@) == words(command).skip(1)
        },
        InstallPlan::Empty => !uses_shell(command) && words(command).len() == 0,
    }
}

/// Whether `inv` runs `program` with the arguments `args` in `dir`.
pub open spec fn invokes(
    inv: Invocation,
    program: Seq<char>,
    args: Seq<Seq<char>>,
    dir: Option<Seq<char>>,
) -> bool {
    &&& inv.program@ == program
    &&& texts(inv.args@) == args
    &&& match dir {
        Some(d) => inv.working_dir is Some && inv.working_dir->0@ == d,
        None => inv.working_dir is None,
    }
}

/// The address from which the repository `repo` is fetched.
pub open spec fn clone_url(repo: Seq<char>) -> Seq<char> {
    "https://github.com/"@ + repo
}

/// How far bootstrap has come: the number of the stage it stands at.
pub open spec fn progress(state: SetupState) -> nat {
    match state {
        SetupState::Start => 0,
        SetupState::CheckingDirectory => 1,
        SetupState::Fetching => 2,
        SetupState::CheckingEntrypoint => 3,
        SetupState::Installing => 4,
        SetupState::Verifying => 5,
        SetupState::ProbingRuntime => 6,
        SetupState::Finished => 7,
    }
}

/// Whether `event` is what a step in `state` waits for.
pub open spec fn expects(state: SetupState, event: SetupEvent) -> bool {
    match state {
        SetupState::Start => event is Begin,
        SetupState::CheckingDirectory => event is PathChecked,
        SetupState::Fetching => event is CommandFinished,
        SetupState::CheckingEntrypoint => event is PathChecked,
        SetupState::Installing => event is CommandFinished,
        SetupState::Verifying => event is PathChecked,
        SetupState::ProbingRuntime => event is CommandFinished,
        SetupState::Finished => false,
    }
}

/// Whether `action` asks for the install command `command` to be run in
/// `dir`, or gives up because it holds no word.
pub open spec fn is_install_step(
    command: Seq<char>,
    dir: Seq<char>,
    next: SetupState,
    action: SetupAction,
) -> bool {
    if uses_shell(command) {
        &&& next is Installing
        &&& action matches SetupAction::Run(inv)
        &&& invokes(inv, "sh"@, seq!["-c"@, command], Some(dir))
    } else if words(command).len() > 0 {
        &&& next is Installing
        &&& action matches SetupAction::Run(inv)
        &&& invokes(inv, words(command)[0], words(command).skip(1), Some(dir))
    } else {
        &&& next is Finished
        &&& action == SetupAction::Done(Err(SetupError::EmptyInstallCommand))
    }
}

/// The bootstrap rules: whether a step taken in `state` on `event` moves
/// to `next` and asks for `action`.
pub open spec fn setup_step(
    state: SetupState,
    event: SetupEvent,
    name: Seq<char>,
    config: McpServerConfig,
    server_config: ServerConfig,
    next: SetupState,
    action: SetupAction,
) -> bool {
    let dir = server_dir(server_config.mcp_servers_dir@, name);
    let entry = entrypoint_path(server_config.mcp_servers_dir@, name, config.entrypoint@);
    let ask_entry = action matches SetupAction::CheckPath(p) && p@ == entry;
    match (state, event) {
        (SetupState::Start, SetupEvent::Begin) => {
            if !texts(server_config.supported_server_types@).contains(config.server_type@) {
                &&& next is Finished
                &&& action matches SetupAction::Done(Err(SetupError::UnsupportedType(t)))
                &&& t@ == config.server_type@
            } else if config.repository is None {
                &&& next is Finished
                &&& action == SetupAction::Done(Err(SetupError::MissingSource))
            } else {
                &&& next is CheckingDirectory
                &&& action matches SetupAction::CheckPath(p)
                &&& p@ == dir
            }
        },
        (SetupState::CheckingDirectory, SetupEvent::PathChecked(exists)) => {
            if exists {
                next is CheckingEntrypoint && ask_entry
            } else if config.repository is Some {
                &&& next is Fetching
                &&& action matches SetupAction::Run(inv)
                &&& invokes(
                    inv,
                    "git"@,
                    seq!["clone"@, clone_url(config.repository->0@), dir],
                    None,
                )
            } else {
                &&& next is Finished
                &&& action == SetupAction::Done(Err(SetupError::MissingSource))
            }
        },
        (SetupState::Fetching, SetupEvent::CommandFinished(outcome)) => {
            if succeeded(outcome) {
                next is CheckingEntrypoint && ask_entry
            } else {
                &&& next is Finished
                &&& action == SetupAction::Done(Err(SetupError::FetchFailed(outcome)))
            }
        },
        (SetupState::CheckingEntrypoint, SetupEvent::PathChecked(exists)) => {
            if !exists && config.install_command is Some {
                is_install_step(config.install_command->0@, dir, next, action)
            } else {
                next is Verifying && ask_entry
            }
        },
        (SetupState::Installing, SetupEvent::CommandFinished(outcome)) => {
            if succeeded(outcome) {
                next is Verifying && ask_entry
            } else {
                &&& next is Finished
                &&& action == SetupAction::Done(Err(SetupError::InstallFailed(outcome)))
            }
        },
        (SetupState::Verifying, SetupEvent::PathChecked(exists)) => {
            if !exists {
                &&& next is Finished
                &&& action matches SetupAction::Done(Err(SetupError::EntrypointMissing(p)))
                &&& p@ == entry
            } else if config.language@ == "node"@ {
                &&& next is ProbingRuntime
                &&& action matches SetupAction::Run(inv)
                &&& invokes(inv, "node"@, seq!["--version"@], None)
            } else {
                &&& next is Finished
                &&& action == SetupAction::Done(Ok(()))
            }
        },
        (SetupState::ProbingRuntime, SetupEvent::CommandFinished(outcome)) => {
            if succeeded(outcome) {
                &&& next is Finished
                &&& action == SetupAction::Done(Ok(()))
            } else {
                &&& next is Finished
                &&& action == SetupAction::Done(Err(SetupError::RuntimeUnavailable(outcome)))
            }
        },
        _ => false,
    }
}

impl CommandOutcome {
    /// Whether the command ran and exited with success.
    pub fn is_success(&self) -> (b: bool)
        ensures
            b == succeeded(*self),
    {
        match self {
            CommandOutcome::NotStarted(_) => false,
            CommandOutcome::Finished { success, .. } => *success,
        }
    }
}

/// Decides whether `event` is what a step in `state` waits for.
pub fn is_expected(state: SetupState, event: &SetupEvent) -> (b: bool)
    ensures
        b == expects(state, *event),
{
    match state {
        SetupState::Start => matches!(event, SetupEvent::Begin),
        SetupState::CheckingDirectory => matches!(event, SetupEvent::PathChecked(_)),
        SetupState::Fetching => matches!(event, SetupEvent::CommandFinished(_)),
        SetupState::CheckingEntrypoint => matches!(event, SetupEvent::PathChecked(_)),
        SetupState::Installing => matches!(event, SetupEvent::CommandFinished(_)),
        SetupState::Verifying => matches!(event, SetupEvent::PathChecked(_)),
        SetupState::ProbingRuntime => matches!(event, SetupEvent::CommandFinished(_)),
        SetupState::Finished => false,
    }
}

/// Chooses how an install command is executed: through a shell where it
/// holds `&&` or `||`, else directly, its words being the program and the
/// arguments. There is no quoting.
pub fn install_plan(command: &str) -> (plan: InstallPlan)
    ensures
        is_install_plan(command@, plan),
{
    if has_substring(command, "&&") || has_substring(command, "||") {
        return InstallPlan::Shell(String::from_str(command));
    }
    let mut parts = split_words(command);
    if parts.len() == 0 {
        return InstallPlan::Empty;
    }
    let ghost all = parts@;
    let program = parts.remove(0);
    assert(texts(parts@) =~= texts(all).skip(1));
    InstallPlan::Direct { program, args: parts }
}

/// A list of owned strings with the given two members.
fn pair(a: &str, b: String) -> (v: Vec<String>)
    ensures
        v@.len() == 2,
        texts(v@) == seq![a@, b@],
{
    let mut v: Vec<String> = Vec::new();
    v.push(String::from_str(a));
    v.push(b);
    assert(texts(v@) =~= seq![a@, b@]);
    v
}

fn install_step(command: &str, dir: String) -> (r: (SetupState, SetupAction))
    ensures
        is_install_step(command@, dir@, r.0, r.1),
{
    match install_plan(command) {
        InstallPlan::Shell(script) => {
            let inv = Invocation {
                program: String::from_str("sh"),
                args: pair("-c", script),
                working_dir: Some(dir),
            };
            (SetupState::Installing, SetupAction::Run(inv))
        },
        InstallPlan::Direct { program, args } => {
            let inv = Invocation { program, args, working_dir: Some(dir) };
            (SetupState::Installing, SetupAction::Run(inv))
        },
        InstallPlan::Empty => (
            SetupState::Finished,
            SetupAction::Done(Err(SetupError::EmptyInstallCommand)),
        ),
    }
}

/// One step of bootstrap for the agent `server_name`: from where it
/// stands and what the driver reports, to where it stands next and what
/// the driver is to do. The same descriptor and configuration are passed
/// to every step.
pub fn setup_mcp_server(
    state: SetupState,
    event: SetupEvent,
    server_name: &str,
    config: &McpServerConfig,
    server_config: &ServerConfig,
) -> (r: (SetupState, SetupAction))
    requires
        expects(state, event),
    ensures
        setup_step(state, event, server_name@, *config, *server_config, r.0, r.1),
{
    let dir = join_path(server_config.mcp_servers_dir.as_str(), server_name);
    let entry = join_path(dir.as_str(), config.entrypoint.as_str());
    match (state, event) {
        (SetupState::Start, SetupEvent::Begin) => {
            if !list_contains(&server_config.supported_server_types, config.server_type.as_str()) {
                let e = SetupError::UnsupportedType(config.server_type.clone());
                (SetupState::Finished, SetupAction::Done(Err(e)))
            } else if config.repository.is_none() {
                (SetupState::Finished, SetupAction::Done(Err(SetupError::MissingSource)))
            } else {
                (SetupState::CheckingDirectory, SetupAction::CheckPath(dir))
            }
        },
        (SetupState::CheckingDirectory, SetupEvent::PathChecked(exists)) => {
            if exists {
                (SetupState::CheckingEntrypoint, SetupAction::CheckPath(entry))
            } else {
                match &config.repository {
                    Some(repo) => {
                        let url = concat_str("https://github.com/", repo.as_str());
                        let mut args = pair("clone", url);
                        let ghost before = args@;
                        let ghost dir_text = dir@;
                        args.push(dir);
                        proof {
                            assert(texts(before)[0] == "clone"@);
                            assert(texts(before)[1] == clone_url(repo@));
                            assert(texts(args@) =~= seq!["clone"@, clone_url(repo@), dir_text]);
                        }
                        let inv = Invocation {
                            program: String::from_str("git"),
                            args,
                            working_dir: None,
                        };
                        (SetupState::Fetching, SetupAction::Run(inv))
                    },
                    None => (
                        SetupState::Finished,
                        SetupAction::Done(Err(SetupError::MissingSource)),
                    ),
                }
            }
        },
        (SetupState::Fetching, SetupEvent::CommandFinished(outcome)) => {
            if outcome.is_success() {
                (SetupState::CheckingEntrypoint, SetupAction::CheckPath(entry))
            } else {
                (SetupState::Finished, SetupAction::Done(Err(SetupError::FetchFailed(outcome))))
            }
        },
        (SetupState::CheckingEntrypoint, SetupEvent::PathChecked(exists)) => {
            if !exists {
                match &config.install_command {
                    Some(command) => install_step(command.as_str(), dir),
                    None => (SetupState::Verifying, SetupAction::CheckPath(entry)),
                }
            } else {
                (SetupState::Verifying, SetupAction::CheckPath(entry))
            }
        },
        (SetupState::Installing, SetupEvent::CommandFinished(outcome)) => {
            if outcome.is_success() {
                (SetupState::Verifying, SetupAction::CheckPath(entry))
            } else {
                (SetupState::Finished, SetupAction::Done(Err(SetupError::InstallFailed(outcome))))
            }
        },
        (SetupState::Verifying, SetupEvent::PathChecked(exists)) => {
            if !exists {
                (
                    SetupState::Finished,
                    SetupAction::Done(Err(SetupError::EntrypointMissing(entry))),
                )
            } else if str_eq(config.language.as_str(), "node") {
                let mut args: Vec<String> = Vec::new();
                args.push(String::from_str("--version"));
                assert(texts(args@) =~= seq!["--version"@]);
                let inv = Invocation { program: String::from_str("node"), args, working_dir: None };
                (SetupState::ProbingRuntime, SetupAction::Run(inv))
            } else {
                (SetupState::Finished, SetupAction::Done(Ok(())))
            }
        },
        (SetupState::ProbingRuntime, SetupEvent::CommandFinished(outcome)) => {
            if outcome.is_success() {
                (SetupState::Finished, SetupAction::Done(Ok(())))
            } else {
                (
                    SetupState::Finished,
                    SetupAction::Done(Err(SetupError::RuntimeUnavailable(outcome))),
                )
            }
        },
        _ => {
            proof {
                assert(false);
            }
            (SetupState::Finished, SetupAction::Done(Err(SetupError::MissingSource)))
        },
    }
}

/// Bootstrap ends well only on the last look at the entrypoint, which
/// found it, or on a probe of the runtime that succeeded; and the runtime
/// is probed only after that look found the entrypoint.
pub proof fn law_success_means_verified(
    state: SetupState,
    event: SetupEvent,
    name: Seq<char>,
    config: McpServerConfig,
    server_config: ServerConfig,
    next: SetupState,
    action: SetupAction,
)
    requires
        setup_step(state, event, name, config, server_config, next, action),
    ensures
        action == SetupAction::Done(Ok(())) ==> {
            ||| state is Verifying && event == SetupEvent::PathChecked(true)
            ||| state is ProbingRuntime && event is CommandFinished && succeeded(
                event->CommandFinished_0,
            )
        },
        next is ProbingRuntime ==> state is Verifying && event == SetupEvent::PathChecked(true),
        next is Verifying ==> state is Installing || state is CheckingEntrypoint,
{
}

/// A step ends bootstrap exactly when it reports a result, an ended
/// bootstrap takes no further step, and no step asks for a command once a
/// command has failed.
pub proof fn law_failure_is_final(
    state: SetupState,
    event: SetupEvent,
    name: Seq<char>,
    config: McpServerConfig,
    server_config: ServerConfig,
    next: SetupState,
    action: SetupAction,
)
    requires
        setup_step(state, event, name, config, server_config, next, action),
    ensures
        expects(state, event),
        next is Finished <==> action is Done,
        forall|e: SetupEvent| !expects(SetupState::Finished, e),
        event is CommandFinished && !succeeded(event->CommandFinished_0) ==> action is Done
            && action->Done_0 is Err,
        state is Start && !texts(server_config.supported_server_types@).contains(
            config.server_type@,
        ) ==> action is Done && action->Done_0 is Err,
{
}

/// Every step moves bootstrap to a later stage, so it ends after seven
/// steps at most, whatever the driver reports.
pub proof fn law_setup_advances(
    state: SetupState,
    event: SetupEvent,
    name: Seq<char>,
    config: McpServerConfig,
    server_config: ServerConfig,
    next: SetupState,
    action: SetupAction,
)
    requires
        setup_step(state, event, name, config, server_config, next, action),
    ensures
        progress(state) < progress(next) <= 7,
{
}

/// Only an absent entrypoint calls for installation. Once the entrypoint
/// is found, bootstrap goes on to the last verification without running
/// the install command, whether the source was there already or has just
/// been fetched, and whether or not an install command is configured. So
/// bootstrap of an agent that is installed already only looks at the
/// disk.
pub proof fn law_present_entrypoint_is_not_installed(
    name: Seq<char>,
    config: McpServerConfig,
    server_config: ServerConfig,
    outcome: CommandOutcome,
    next: SetupState,
    action: SetupAction,
)
    ensures
        setup_step(
            SetupState::CheckingDirectory,
            SetupEvent::PathChecked(true),
            name,
            config,
            server_config,
            next,
            action,
        ) ==> next is CheckingEntrypoint && action is CheckPath,
        succeeded(outcome) && setup_step(
            SetupState::Fetching,
            SetupEvent::CommandFinished(outcome),
            name,
            config,
            server_config,
            next,
            action,
        ) ==> next is CheckingEntrypoint && action is CheckPath,
        setup_step(
            SetupState::CheckingEntrypoint,
            SetupEvent::PathChecked(true),
            name,
            config,
            server_config,
            next,
            action,
        ) ==> next is Verifying && action is CheckPath,
{
}

/// The install command is asked for in one situation only: the
/// entrypoint was looked for and is absent, and a command is configured.
pub proof fn law_install_needs_absent_entrypoint(
    state: SetupState,
    event: SetupEvent,
    name: Seq<char>,
    config: McpServerConfig,
    server_config: ServerConfig,
    next: SetupState,
    action: SetupAction,
)
    requires
        setup_step(state, event, name, config, server_config, next, action),
    ensures
        next is Installing ==> {
            &&& state is CheckingEntrypoint
            &&& event == SetupEvent::PathChecked(false)
            &&& config.install_command is Some
        },
        next is Fetching ==> state is CheckingDirectory && event == SetupEvent::PathChecked(false),
{
}

} // verus!
