use agent_bridge::config::{
    build_command, join_path, BuildError, EnvSettings, McpServerConfig, ServerConfig,
    DEFAULT_PROCESS_INIT_WAIT_SECS, DEFAULT_RESPONSE_TIMEOUT_SECS,
};

fn no_settings() -> EnvSettings {
    EnvSettings {
        mcp_servers_dir: None,
        response_timeout_secs: None,
        process_init_wait_secs: None,
        supported_languages: None,
        supported_server_types: None,
    }
}

fn descriptor(language: &str) -> McpServerConfig {
    McpServerConfig {
        server_type: "github".to_string(),
        repository: Some("owner/repo".to_string()),
        language: language.to_string(),
        entrypoint: "dist/index.js".to_string(),
        description: None,
        install_command: Some("npm install".to_string()),
    }
}

fn timeout_for(text: &str) -> u64 {
    let env = EnvSettings { response_timeout_secs: Some(text.to_string()), ..no_settings() };
    ServerConfig::from_settings(&env).response_timeout_secs
}

#[test]
fn defaults_when_nothing_is_set() {
    let c = ServerConfig::from_settings(&no_settings());
    assert_eq!(c.mcp_servers_dir, "/app/mcp-servers");
    assert_eq!(c.response_timeout_secs, 30);
    assert_eq!(c.process_init_wait_secs, 2);
    assert_eq!(c.supported_languages, vec!["node".to_string(), "python".to_string()]);
    assert_eq!(c.supported_server_types, vec!["github".to_string()]);
    assert_eq!(ServerConfig::default(), c);
    assert_eq!(DEFAULT_RESPONSE_TIMEOUT_SECS, 30);
    assert_eq!(DEFAULT_PROCESS_INIT_WAIT_SECS, 2);
}

#[test]
fn settings_override_defaults() {
    let env = EnvSettings {
        mcp_servers_dir: Some("/srv/agents".to_string()),
        response_timeout_secs: Some("1".to_string()),
        process_init_wait_secs: Some("0".to_string()),
        supported_languages: Some(" node , deno,python ".to_string()),
        supported_server_types: Some("github,gitlab".to_string()),
    };
    let c = ServerConfig::from_settings(&env);
    assert_eq!(c.mcp_servers_dir, "/srv/agents");
    assert_eq!(c.response_timeout_secs, 1);
    assert_eq!(c.process_init_wait_secs, 0);
    assert_eq!(
        c.supported_languages,
        vec!["node".to_string(), "deno".to_string(), "python".to_string()]
    );
    assert_eq!(c.supported_server_types, vec!["github".to_string(), "gitlab".to_string()]);
}

#[test]
fn numbers_parse_as_std_does() {
    assert_eq!(timeout_for("45"), 45);
    assert_eq!(timeout_for("+45"), 45);
    assert_eq!(timeout_for("007"), 7);
    assert_eq!(timeout_for("0"), 0);
    assert_eq!(timeout_for("18446744073709551615"), u64::MAX);
}

#[test]
fn numbers_that_do_not_parse_fall_back() {
    for bad in ["", "+", "-1", " 5", "5 ", "5s", "1.5", "18446744073709551616", "++5", "0x10"] {
        assert_eq!(timeout_for(bad), 30, "{:?}", bad);
    }
    let env = EnvSettings { process_init_wait_secs: Some("soon".to_string()), ..no_settings() };
    assert_eq!(ServerConfig::from_settings(&env).process_init_wait_secs, 2);
}

#[test]
fn empty_list_setting_gives_one_empty_member() {
    let env = EnvSettings { supported_languages: Some(String::new()), ..no_settings() };
    assert_eq!(ServerConfig::from_settings(&env).supported_languages, vec![String::new()]);
}

#[test]
fn join_path_puts_a_slash_between() {
    assert_eq!(join_path("/app/mcp-servers", "readability"), "/app/mcp-servers/readability");
    assert_eq!(join_path("", ""), "/");
    assert_eq!(join_path("a/", "/b"), "a///b");
}

#[test]
fn command_for_node_and_python() {
    let c = ServerConfig::default();
    assert_eq!(
        build_command("readability", &descriptor("node"), &c),
        Ok(("node".to_string(), vec!["/app/mcp-servers/readability/dist/index.js".to_string()]))
    );
    assert_eq!(
        build_command("readability", &descriptor("python"), &c),
        Ok(("python".to_string(), vec!["/app/mcp-servers/readability/dist/index.js".to_string()]))
    );
}

#[test]
fn command_for_unsupported_language() {
    let c = ServerConfig::default();
    assert_eq!(
        build_command("x", &descriptor("ruby"), &c),
        Err(BuildError::UnsupportedLanguage("ruby".to_string()))
    );
    let only_python = ServerConfig { supported_languages: vec!["python".to_string()], ..c };
    assert_eq!(
        build_command("x", &descriptor("node"), &only_python),
        Err(BuildError::UnsupportedLanguage("node".to_string()))
    );
}

#[test]
fn command_for_language_without_interpreter() {
    let c = ServerConfig {
        supported_languages: vec!["node".to_string(), "ruby".to_string()],
        ..ServerConfig::default()
    };
    assert_eq!(
        build_command("x", &descriptor("ruby"), &c),
        Err(BuildError::LanguageNotImplemented("ruby".to_string()))
    );
}

#[test]
fn gateway_settings_fall_back_to_defaults() {
    let g = agent_bridge::config::GatewaySettings::from_settings(None, None, None, None);
    assert_eq!(g.config_file, "mcp_servers.config.json");
    assert_eq!(g.server_name, "readability");
    assert_eq!(g.host, "0.0.0.0");
    assert_eq!(g.port, "3000");
    assert_eq!(g.bind_address(), "0.0.0.0:3000");
}

#[test]
fn gateway_settings_take_what_is_given() {
    let g = agent_bridge::config::GatewaySettings::from_settings(
        Some("agents.json".to_string()),
        Some("search".to_string()),
        Some("127.0.0.1".to_string()),
        Some("8080".to_string()),
    );
    assert_eq!(g.config_file, "agents.json");
    assert_eq!(g.server_name, "search");
    assert_eq!(g.bind_address(), "127.0.0.1:8080");
    let empty = agent_bridge::config::GatewaySettings::from_settings(
        None,
        None,
        Some(String::new()),
        Some(String::new()),
    );
    assert_eq!(empty.bind_address(), ":");
}
