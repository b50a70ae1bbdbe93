//! Runtime configuration, agent descriptors, and the command line that
//! launches an agent.

use vstd::prelude::*;
use crate::number::{parse_u64, parsed_u64};
use crate::text::{comma_list, concat_str, list_contains, split_comma_list, str_eq, texts};

verus! {

/// Process-wide settings, fixed after startup.
#[derive(Clone, Debug, PartialEq, Eq)]
pub struct ServerConfig {
    /// The directory under which each agent is installed.
    pub mcp_servers_dir: String,
    /// How long a query waits for its response line, in seconds.
    pub response_timeout_secs: u64,
    /// How long a freshly spawned agent is given to initialise, in seconds.
    pub process_init_wait_secs: u64,
    pub supported_languages: Vec<String>,
    pub supported_server_types: Vec<String>,
}

/// The descriptor of one configured agent.
#[derive(Clone, Debug, PartialEq, Eq)]
pub struct McpServerConfig {
    pub server_type: String,
    pub repository: Option<String>,
    pub language: String,
    /// The entrypoint, relative to the agent's install directory.
    pub entrypoint: String,
    pub description: Option<String>,
    pub install_command: Option<String>,
}

/// The raw values of the settings that the environment may override;
/// `None` where a setting is not given.
#[derive(Clone, Debug, PartialEq, Eq)]
pub struct EnvSettings {
    pub mcp_servers_dir: Option<String>,
    pub response_timeout_secs: Option<String>,
    pub process_init_wait_secs: Option<String>,
    pub supported_languages: Option<String>,
    pub supported_server_types: Option<String>,
}

/// Where the gateway finds its agent and where it listens.
#[derive(Clone, Debug, PartialEq, Eq)]
pub struct GatewaySettings {
    /// The file that holds the descriptors.
    pub config_file: String,
    /// The name of the descriptor to serve.
    pub server_name: String,
    pub host: String,
    pub port: String,
}

/// Why no command line could be built for a descriptor.
#[derive(Clone, Debug, PartialEq, Eq)]
pub enum BuildError {
    /// The descriptor's language is not among the supported ones.
    UnsupportedLanguage(String),
    /// The language is supported but no interpreter is known for it.
    LanguageNotImplemented(String),
}

pub const DEFAULT_RESPONSE_TIMEOUT_SECS: u64 = 30;

pub const DEFAULT_PROCESS_INIT_WAIT_SECS: u64 = 2;

/// The number of seconds that an optional setting gives: its value where
/// it is given and is a number, else `default`.
pub open spec fn seconds_or(setting: Option<String>, default: u64) -> u64 {
    match setting {
        Some(text) => match parsed_u64(text@) {
            Some(n) => n,
            None => default,
        },
        None => default,
    }
}

/// The text of an optional setting, or `default` where it is not given.
pub open spec fn text_or(setting: Option<String>, default: Seq<char>) -> Seq<char> {
    match setting {
        Some(text) => text@,
        None => default,
    }
}

/// `a`, a slash, `b`.
pub open spec fn joined(a: Seq<char>, b: Seq<char>) -> Seq<char> {
    a.push('/') + b
}

/// The install directory of the agent `name`.
pub open spec fn server_dir(root: Seq<char>, name: Seq<char>) -> Seq<char> {
    joined(root, name)
}

/// The full path of an agent's entrypoint.
pub open spec fn entrypoint_path(root: Seq<char>, name: Seq<char>, entrypoint: Seq<char>) -> Seq<
    char,
> {
    joined(server_dir(root, name), entrypoint)
}

/// Whether an interpreter is known for `language`.
pub open spec fn has_interpreter(language: Seq<char>) -> bool {
    language == "node"@ || language == "python"@
}

/// Joins two path components with a slash.
pub fn join_path(a: &str, b: &str) -> (r: String)
    ensures
        r@ == joined(a@, b@),
{
    let head = concat_str(a, "/");
    let r = concat_str(head.as_str(), b);
    proof {
        reveal_strlit("/");
        assert(r@ =~= joined(a@, b@));
    }
    r
}

fn text_setting(setting: Option<String>, default: &str) -> (text: String)
    ensures
        text@ == text_or(setting, default@),
{
    match setting {
        Some(text) => text,
        None => String::from_str(default),
    }
}

fn seconds_setting(setting: &Option<String>, default: u64) -> (n: u64)
    ensures
        n == seconds_or(*setting, default),
{
    match setting {
        Some(text) => match parse_u64(text.as_str()) {
            Some(n) => n,
            None => default,
        },
        None => default,
    }
}

fn list_setting(setting: &Option<String>, default: &str) -> (list: Vec<String>)
    ensures
        texts(list@) == comma_list(text_or(*setting, default@)),
{
    match setting {
        Some(text) => split_comma_list(text.as_str()),
        None => split_comma_list(default),
    }
}

impl ServerConfig {
    /// The configuration that the given settings select. A setting that is
    /// absent, or a number that does not parse, falls back to its default;
    /// the two lists are split at commas and each member is trimmed.
    pub fn from_settings(env: &EnvSettings) -> (c: ServerConfig)
        ensures
            c.mcp_servers_dir@ == text_or(env.mcp_servers_dir, "/app/mcp-servers"@),
            c.response_timeout_secs == seconds_or(
                env.response_timeout_secs,
                DEFAULT_RESPONSE_TIMEOUT_SECS,
            ),
            c.process_init_wait_secs == seconds_or(
                env.process_init_wait_secs,
                DEFAULT_PROCESS_INIT_WAIT_SECS,
            ),
            texts(c.supported_languages@) == comma_list(
                text_or(env.supported_languages, "node,python"@),
            ),
            texts(c.supported_server_types@) == comma_list(
                text_or(env.supported_server_types, "github"@),
            ),
    {
        ServerConfig {
            mcp_servers_dir: text_setting(env.mcp_servers_dir.clone(), "/app/mcp-servers"),
            response_timeout_secs: seconds_setting(
                &env.response_timeout_secs,
                DEFAULT_RESPONSE_TIMEOUT_SECS,
            ),
            process_init_wait_secs: seconds_setting(
                &env.process_init_wait_secs,
                DEFAULT_PROCESS_INIT_WAIT_SECS,
            ),
            supported_languages: list_setting(&env.supported_languages, "node,python"),
            supported_server_types: list_setting(&env.supported_server_types, "github"),
        }
    }
}

impl GatewaySettings {
    /// The settings that the given values select, each falling back to
    /// its default where it is not given.
    pub fn from_settings(
        config_file: Option<String>,
        server_name: Option<String>,
        host: Option<String>,
        port: Option<String>,
    ) -> (g: GatewaySettings)
        ensures
            g.config_file@ == text_or(config_file, "mcp_servers.config.json"@),
            g.server_name@ == text_or(server_name, "readability"@),
            g.host@ == text_or(host, "0.0.0.0"@),
            g.port@ == text_or(port, "3000"@),
    {
        GatewaySettings {
            config_file: text_setting(config_file, "mcp_servers.config.json"),
            server_name: text_setting(server_name, "readability"),
            host: text_setting(host, "0.0.0.0"),
            port: text_setting(port, "3000"),
        }
    }

    /// The address to listen on: the host, a colon, the port.
    pub fn bind_address(&self) -> (address: String)
        ensures
            address@ == self.host@.push(':') + self.port@,
    {
        let head = concat_str(self.host.as_str(), ":");
        let address = concat_str(head.as_str(), self.port.as_str());
        proof {
            reveal_strlit(":");
            assert(address@ =~= self.host@.push(':') + self.port@);
        }
        address
    }
}

impl Default for ServerConfig {
    /// The configuration when the environment overrides nothing.
    fn default() -> (c: ServerConfig)
        ensures
            c.mcp_servers_dir@ == "/app/mcp-servers"@,
            c.response_timeout_secs == DEFAULT_RESPONSE_TIMEOUT_SECS,
            c.process_init_wait_secs == DEFAULT_PROCESS_INIT_WAIT_SECS,
            texts(c.supported_languages@) == comma_list("node,python"@),
            texts(c.supported_server_types@) == comma_list("github"@),
    {
        ServerConfig::from_settings(
            &EnvSettings {
                mcp_servers_dir: None,
                response_timeout_secs: None,
                process_init_wait_secs: None,
                supported_languages: None,
                supported_server_types: None,
            },
        )
    }
}

/// The command line that launches the agent `server_name`: the
/// interpreter of its language, and the path of its entrypoint as the only
/// argument. The language must be a supported one, and one for which an
/// interpreter is known.
pub fn build_command(
    server_name: &str,
    config: &McpServerConfig,
    server_config: &ServerConfig,
) -> (r: Result<(String, Vec<String>), BuildError>)
    ensures
        match r {
            Ok((program, args)) => {
                &&& texts(server_config.supported_languages@).contains(config.language@)
                &&& has_interpreter(config.language@)
                &&& program@ == config.language@
                &&& texts(args@) == seq![
                    entrypoint_path(
                        server_config.mcp_servers_dir@,
                        server_name@,
                        config.entrypoint@,
                    ),
                ]
            },
            Err(BuildError::UnsupportedLanguage(language)) => {
                &&& !texts(server_config.supported_languages@).contains(config.language@)
                &&& language@ == config.language@
            },
            Err(BuildError::LanguageNotImplemented(language)) => {
                &&& texts(server_config.supported_languages@).contains(config.language@)
                &&& !has_interpreter(config.language@)
                &&& language@ == config.language@
            },
        },
{
    let server_path = join_path(server_config.mcp_servers_dir.as_str(), server_name);
    let entrypoint = join_path(server_path.as_str(), config.entrypoint.as_str());
    if !list_contains(&server_config.supported_languages, config.language.as_str()) {
        return Err(BuildError::UnsupportedLanguage(config.language.clone()));
    }
    if str_eq(config.language.as_str(), "node") || str_eq(config.language.as_str(), "python") {
        let mut args: Vec<String> = Vec::new();
        args.push(entrypoint);
        assert(texts(args@) =~= seq![entrypoint@]);
        Ok((config.language.clone(), args))
    } else {
        Err(BuildError::LanguageNotImplemented(config.language.clone()))
    }
}

} // verus!
