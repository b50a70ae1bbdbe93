use agent_bridge::gateway::{
    auth_middleware, handle_request, token_of, AuthConfig, AuthError, STATUS_INTERNAL_SERVER_ERROR,
    STATUS_UNAUTHORIZED,
};
use agent_bridge::logging::{get_timestamp, log_line};
use agent_bridge::number::{format_decimal, parse_u64};
use agent_bridge::session::{IoFailure, McpResponse, QueryError};

fn header(text: &str) -> Option<String> {
    Some(text.to_string())
}

fn turned_away() -> Result<(), (u16, AuthError)> {
    Err((
        401,
        AuthError {
            error: "Unauthorized".to_string(),
            message: "Invalid or missing API key".to_string(),
        },
    ))
}

#[test]
fn auth_is_on_with_a_key_unless_switched_off() {
    let key = Some("secret".to_string());
    assert!(AuthConfig::from_settings(key.clone(), &None).enabled);
    assert!(AuthConfig::from_settings(key.clone(), &header("false")).enabled);
    assert!(AuthConfig::from_settings(key.clone(), &header("")).enabled);
    assert!(AuthConfig::from_settings(key.clone(), &header("TRUE")).enabled);
    assert!(AuthConfig::from_settings(key.clone(), &header("1")).enabled);
    assert!(!AuthConfig::from_settings(key.clone(), &header("true")).enabled);
    assert!(!AuthConfig::from_settings(None, &None).enabled);
    assert!(!AuthConfig::from_settings(None, &header("false")).enabled);
    assert_eq!(AuthConfig::from_settings(key.clone(), &None).api_key, key);
}

#[test]
fn bearer_token_is_what_follows_the_prefix() {
    assert_eq!(token_of("Bearer secret"), Some("secret".to_string()));
    assert_eq!(token_of("Bearer "), Some(String::new()));
    assert_eq!(token_of("Bearer  two"), Some(" two".to_string()));
    assert_eq!(token_of("bearer secret"), None);
    assert_eq!(token_of("Basic secret"), None);
    assert_eq!(token_of("Bearer"), None);
    assert_eq!(token_of(""), None);
}

#[test]
fn matching_token_is_let_in() {
    let auth = AuthConfig { api_key: Some("secret".to_string()), enabled: true };
    assert_eq!(auth_middleware(&auth, &header("Bearer secret")), Ok(()));
}

#[test]
fn wrong_or_missing_token_is_turned_away() {
    let auth = AuthConfig { api_key: Some("secret".to_string()), enabled: true };
    assert_eq!(auth_middleware(&auth, &header("Bearer wrong")), turned_away());
    assert_eq!(auth_middleware(&auth, &header("Bearer secret ")), turned_away());
    assert_eq!(auth_middleware(&auth, &header("secret")), turned_away());
    assert_eq!(auth_middleware(&auth, &header("Basic secret")), turned_away());
    assert_eq!(auth_middleware(&auth, &None), turned_away());
    assert_eq!(STATUS_UNAUTHORIZED, 401);
}

#[test]
fn enabled_without_a_key_lets_nobody_in() {
    let auth = AuthConfig { api_key: None, enabled: true };
    assert_eq!(auth_middleware(&auth, &header("Bearer ")), turned_away());
    assert_eq!(auth_middleware(&auth, &None), turned_away());
}

#[test]
fn disabled_check_lets_everyone_in() {
    let auth = AuthConfig { api_key: Some("secret".to_string()), enabled: false };
    assert_eq!(auth_middleware(&auth, &None), Ok(()));
    assert_eq!(auth_middleware(&auth, &header("Bearer wrong")), Ok(()));
}

#[test]
fn every_failure_is_the_same_server_error() {
    let response = McpResponse { result: "pong".to_string() };
    assert_eq!(handle_request(Ok(response.clone())), Ok(response));
    let cause = IoFailure { message: "x".to_string(), os_code: Some(32) };
    for e in [
        QueryError::ProcessTerminated,
        QueryError::WriteFailed(cause.clone()),
        QueryError::FlushFailed(cause.clone()),
        QueryError::ConnectionClosed,
        QueryError::EmptyResponse,
        QueryError::ReadFailed(cause),
        QueryError::Timeout,
    ] {
        assert_eq!(handle_request(Err(e)), Err(500));
    }
    assert_eq!(STATUS_INTERNAL_SERVER_ERROR, 500);
}

#[test]
fn decimal_notation() {
    assert_eq!(format_decimal(0), "0");
    assert_eq!(format_decimal(7), "7");
    assert_eq!(format_decimal(10), "10");
    assert_eq!(format_decimal(1_700_000_000_123), "1700000000123");
    assert_eq!(format_decimal(9_876_543_210), "9876543210");
    assert_eq!(format_decimal(u128::MAX), u128::MAX.to_string());
}

#[test]
fn timestamp_is_a_number_of_milliseconds() {
    let before = std::time::SystemTime::now()
        .duration_since(std::time::UNIX_EPOCH)
        .unwrap()
        .as_millis();
    let stamp = get_timestamp();
    let after = std::time::SystemTime::now()
        .duration_since(std::time::UNIX_EPOCH)
        .unwrap()
        .as_millis();
    assert!(stamp.chars().all(|c| c.is_ascii_digit()));
    let value: u128 = stamp.parse().unwrap();
    assert!(before <= value && value <= after);
}

#[test]
fn log_line_layout() {
    assert_eq!(
        log_line("1700000000123", "INFO", "MAIN", "Starting"),
        "[1700000000123] [INFO] [MAIN] Starting"
    );
    assert_eq!(log_line("", "", "", ""), "[] [] [] ");
}

#[test]
fn parse_reads_what_format_writes() {
    for n in [0u64, 1, 9, 10, 99, 100, 12_345, u64::MAX - 1, u64::MAX] {
        assert_eq!(parse_u64(&format_decimal(n as u128)), Some(n));
    }
    assert_eq!(parse_u64(&format_decimal(u64::MAX as u128 + 1)), None);
}

#[test]
fn parse_agrees_with_std() {
    for s in [
        "", "+", "-", "0", "+0", "-0", "00", "42", "+42", "-42", "4 2", " 42", "42 ", "4_2", "0x2a",
        "18446744073709551615", "18446744073709551616", "99999999999999999999999", "+18446744073709551615",
        "\u{663}", "1e3", "++1", "1+",
    ] {
        assert_eq!(parse_u64(s), s.parse::<u64>().ok(), "{:?}", s);
    }
}
